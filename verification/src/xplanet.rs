//! What the planet renderer is given: the text of its configuration file
//! and the arguments of its command line.

use vstd::prelude::*;
use vstd::string::*;
use crate::text::{append_decimal, decimal};

verus! {

/// Where the renderer is installed.
pub open spec fn command_path() -> Seq<char> {
    "/usr/bin/xplanet"@
}

/// The renderer's executable.
pub fn xplanet_command() -> (path: &'static str)
    ensures
        path@ == command_path(),
{
    "/usr/bin/xplanet"
}

/// Text of a configuration that overlays the cloud map at the given path
/// on the earth.
pub open spec fn config_text(cloudmap_path: Seq<char>) -> Seq<char> {
    "[earth]\n"@ + "cloud_map="@ + cloudmap_path + "\n"@
}

/// A geometry of `width` by `height` pixels as the renderer reads it.
pub open spec fn geometry_text(geometry: (u32, u32)) -> Seq<char> {
    decimal(geometry.0 as nat) + "x"@ + decimal(geometry.1 as nat)
}

/// Arguments that make the renderer draw the earth once, in Mercator
/// projection, at the given size, from the given configuration, into the
/// given file.
pub open spec fn render_arguments(geometry: (u32, u32), config: Seq<char>, output: Seq<char>) -> Seq<
    Seq<char>,
> {
    seq![
        "-num_times"@,
        "1"@,
        "-output"@,
        output,
        "-geometry"@,
        geometry_text(geometry),
        "-body"@,
        "earth"@,
        "-projection"@,
        "mercator"@,
        "-proj_param"@,
        "72"@,
        "-config"@,
        config,
    ]
}

/// Writes out the configuration of the renderer for a cloud map.
pub fn create_xplanet_config(cloudmap_path: &str) -> (text: String)
    ensures
        text@ == config_text(cloudmap_path@),
{
    let mut text = String::from_str("[earth]\n");
    text.append("cloud_map=");
    text.append(cloudmap_path);
    text.append("\n");
    text
}

/// Puts together the command line of one rendering.
pub fn generate_earth_map(geometry: (u32, u32), config: &str, output: &str) -> (arguments: Vec<
    String,
>)
    ensures
        arguments.deep_view() == render_arguments(geometry, config@, output@),
{
    let mut size = String::new();
    append_decimal(&mut size, geometry.0);
    size.append("x");
    append_decimal(&mut size, geometry.1);
    assert(size@ =~= geometry_text(geometry));
    let mut arguments: Vec<String> = Vec::new();
    arguments.push(String::from_str("-num_times"));
    arguments.push(String::from_str("1"));
    arguments.push(String::from_str("-output"));
    arguments.push(String::from_str(output));
    arguments.push(String::from_str("-geometry"));
    arguments.push(size);
    arguments.push(String::from_str("-body"));
    arguments.push(String::from_str("earth"));
    arguments.push(String::from_str("-projection"));
    arguments.push(String::from_str("mercator"));
    arguments.push(String::from_str("-proj_param"));
    arguments.push(String::from_str("72"));
    arguments.push(String::from_str("-config"));
    arguments.push(String::from_str(config));
    assert(arguments.deep_view() =~= render_arguments(geometry, config@, output@));
    arguments
}

} // verus!
