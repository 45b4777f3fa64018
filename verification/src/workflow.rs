//! One run from battery check to new wallpaper, as a state machine: each
//! stage names a task for the caller, and the caller's report on the task
//! decides the next stage.

use vstd::prelude::*;
use vstd::string::*;
use crate::power::{power_gate, spec_power_gate, PowerVerdict};
use crate::xplanet::{command_path, config_text, create_xplanet_config, generate_earth_map,
    render_arguments, xplanet_command};
use crate::Down2EarthError;

verus! {

/// Zoom level at which the cloud map is downloaded.
pub const ZOOM_LEVEL: u32 = 2;

/// A length of time: whole seconds and a further number of nanoseconds.
#[derive(Clone, Copy, Debug, PartialEq, Eq, Structural)]
pub struct Span {
    pub secs: u64,
    pub nanos: u32,
}

impl Span {
    /// The length in nanoseconds.
    pub open spec fn total_nanos(self) -> nat {
        (self.secs * 1_000_000_000 + self.nanos) as nat
    }
}

/// Tells whether a file last modified `elapsed` ago is older than
/// `duration`.
pub fn is_file_older_than(elapsed: Span, duration: Span) -> (older: bool)
    ensures
        older == (elapsed.total_nanos() > duration.total_nanos()),
{
    let age: u128 = (elapsed.secs as u128) * 1_000_000_000 + (elapsed.nanos as u128);
    let limit: u128 = (duration.secs as u128) * 1_000_000_000 + (duration.nanos as u128);
    age > limit
}

/// Model of `Settings`.
pub struct SettingsView {
    pub geometry: (u32, u32),
    pub working_directory: Seq<char>,
    pub min_battery_percentage: u32,
    pub clouds_lifespan: Span,
    pub force: bool,
}

/// What a run is asked to do: the size of the wallpaper, the directory to
/// work in, the charge below which a battery must be charging, the age
/// beyond which the cloud map is downloaded anew, and whether to ignore the
/// battery.
pub struct Settings {
    pub geometry: (u32, u32),
    pub working_directory: String,
    pub min_battery_percentage: u32,
    pub clouds_lifespan: Span,
    pub force: bool,
}

impl View for Settings {
    type V = SettingsView;

    open spec fn view(&self) -> SettingsView {
        SettingsView {
            geometry: self.geometry,
            working_directory: self.working_directory@,
            min_battery_percentage: self.min_battery_percentage,
            clouds_lifespan: self.clouds_lifespan,
            force: self.force,
        }
    }
}

/// Path of the renderer's configuration.
pub open spec fn config_path(working_directory: Seq<char>) -> Seq<char> {
    working_directory + "/down2earth.config"@
}

/// Path of the cloud map.
pub open spec fn clouds_path(working_directory: Seq<char>) -> Seq<char> {
    working_directory + "/clouds.png"@
}

/// Path of the rendered wallpaper.
pub open spec fn output_path(working_directory: Seq<char>) -> Seq<char> {
    working_directory + "/down2earth.png"@
}

/// Where a run stands.
#[derive(Clone, Copy, Debug, PartialEq, Eq, Structural)]
pub enum Stage {
    Battery,
    Charging,
    ConfigCheck,
    ConfigWrite,
    CloudsCheck,
    Download,
    Render,
    Wallpaper,
    Succeeded,
    Failed(Down2EarthError),
}

/// What the caller found when it carried out a task.
#[derive(Clone, Copy, Debug)]
pub enum Report {
    /// The charge of the batteries in percent, `None` without a battery.
    Battery(Option<u32>),
    /// Whether some battery is charging.
    Charging(bool),
    /// Whether the file exists.
    Exists(bool),
    /// Time since the file was last modified, `None` if there is no file.
    Age(Option<Span>),
    /// The task was carried out.
    Succeeded,
    /// The task failed.
    Failed,
}

/// Model of a `Task`.
pub enum TaskView {
    QueryBattery,
    QueryCharging,
    CheckFile { path: Seq<char> },
    WriteConfig { path: Seq<char>, text: Seq<char> },
    CheckAge { path: Seq<char> },
    DownloadClouds { zoom: u32, path: Seq<char> },
    Render { command: Seq<char>, arguments: Seq<Seq<char>> },
    SetWallpaper { path: Seq<char> },
    Finish(Result<(), Down2EarthError>),
}

/// What the caller is to do next.
#[derive(Debug)]
pub enum Task {
    /// Measure the charge of the batteries.
    QueryBattery,
    /// Find out whether a battery is charging.
    QueryCharging,
    /// Find out whether the file exists.
    CheckFile { path: String },
    /// Write the text to the file.
    WriteConfig { path: String, text: String },
    /// Find out when the file was last modified.
    CheckAge { path: String },
    /// Download the cloud map at this zoom level into the file.
    DownloadClouds { zoom: u32, path: String },
    /// Run the command with the arguments.
    Render { command: String, arguments: Vec<String> },
    /// Make the file the desktop wallpaper.
    SetWallpaper { path: String },
    /// Stop: the run is over.
    Finish(Result<(), Down2EarthError>),
}

impl View for Task {
    type V = TaskView;

    open spec fn view(&self) -> TaskView {
        match self {
            Task::QueryBattery => TaskView::QueryBattery,
            Task::QueryCharging => TaskView::QueryCharging,
            Task::CheckFile { path } => TaskView::CheckFile { path: path@ },
            Task::WriteConfig { path, text } => TaskView::WriteConfig { path: path@, text: text@ },
            Task::CheckAge { path } => TaskView::CheckAge { path: path@ },
            Task::DownloadClouds { zoom, path } => TaskView::DownloadClouds {
                zoom: *zoom,
                path: path@,
            },
            Task::Render { command, arguments } => TaskView::Render {
                command: command@,
                arguments: arguments.deep_view(),
            },
            Task::SetWallpaper { path } => TaskView::SetWallpaper { path: path@ },
            Task::Finish(outcome) => TaskView::Finish(*outcome),
        }
    }
}

/// The task of a stage.
pub open spec fn task_of(stage: Stage, settings: SettingsView) -> TaskView {
    let directory = settings.working_directory;
    match stage {
        Stage::Battery => TaskView::QueryBattery,
        Stage::Charging => TaskView::QueryCharging,
        Stage::ConfigCheck => TaskView::CheckFile { path: config_path(directory) },
        Stage::ConfigWrite => TaskView::WriteConfig {
            path: config_path(directory),
            text: config_text(clouds_path(directory)),
        },
        Stage::CloudsCheck => TaskView::CheckAge { path: clouds_path(directory) },
        Stage::Download => TaskView::DownloadClouds {
            zoom: ZOOM_LEVEL,
            path: clouds_path(directory),
        },
        Stage::Render => TaskView::Render {
            command: command_path(),
            arguments: render_arguments(
                settings.geometry,
                config_path(directory),
                output_path(directory),
            ),
        },
        Stage::Wallpaper => TaskView::SetWallpaper { path: output_path(directory) },
        Stage::Succeeded => TaskView::Finish(Ok(())),
        Stage::Failed(error) => TaskView::Finish(Err(error)),
    }
}

/// The stage that follows a report. A report that does not answer the task
/// of the stage changes nothing.
pub open spec fn next_stage(stage: Stage, settings: SettingsView, report: Report) -> Stage {
    match (stage, report) {
        (Stage::Battery, Report::Battery(percentage)) => match spec_power_gate(
            settings.force,
            percentage,
            settings.min_battery_percentage,
        ) {
            PowerVerdict::Proceed => Stage::ConfigCheck,
            PowerVerdict::ProceedIfCharging => Stage::Charging,
        },
        (Stage::Charging, Report::Charging(charging)) => if charging {
            Stage::ConfigCheck
        } else {
            Stage::Failed(Down2EarthError::PowerStatusExit)
        },
        (Stage::ConfigCheck, Report::Exists(exists)) => if exists {
            Stage::CloudsCheck
        } else {
            Stage::ConfigWrite
        },
        (Stage::ConfigWrite, Report::Succeeded) => Stage::CloudsCheck,
        (Stage::CloudsCheck, Report::Age(age)) => if age is None || age->0.total_nanos()
            > settings.clouds_lifespan.total_nanos() {
            Stage::Download
        } else {
            Stage::Render
        },
        (Stage::Download, Report::Succeeded) => Stage::Render,
        (Stage::Download, Report::Failed) => Stage::Failed(Down2EarthError::CloudDownloadError),
        (Stage::Render, Report::Succeeded) => Stage::Wallpaper,
        (Stage::Render, Report::Failed) => Stage::Failed(Down2EarthError::XPlanetError),
        (Stage::Wallpaper, Report::Succeeded) => Stage::Succeeded,
        (Stage::Wallpaper, Report::Failed) => Stage::Failed(Down2EarthError::SetWallpaperError),
        _ => stage,
    }
}

/// A run ends for want of power exactly when the battery check is not
/// overridden, a battery is present, its charge is not above the minimum and
/// no battery is charging.
pub proof fn lemma_power_exit(settings: SettingsView, percentage: Option<u32>, charging: bool)
    ensures
        next_stage(
            next_stage(Stage::Battery, settings, Report::Battery(percentage)),
            settings,
            Report::Charging(charging),
        ) == Stage::Failed(Down2EarthError::PowerStatusExit) <==> !settings.force
            && percentage is Some && percentage->0 <= settings.min_battery_percentage
            && !charging,
{
}

/// A run that is over stays over, whatever is reported.
pub proof fn lemma_finished_is_final(stage: Stage, settings: SettingsView, report: Report)
    requires
        stage is Succeeded || stage is Failed,
    ensures
        next_stage(stage, settings, report) == stage,
{
}

/// The cloud map is downloaded exactly when there is none or the one at
/// hand is older than its lifespan.
pub proof fn lemma_download_when_stale(settings: SettingsView, age: Option<Span>)
    ensures
        next_stage(Stage::CloudsCheck, settings, Report::Age(age)) == Stage::Download <==> (age
            is None || age->0.total_nanos() > settings.clouds_lifespan.total_nanos()),
        next_stage(Stage::CloudsCheck, settings, Report::Age(age)) != Stage::Download
            ==> next_stage(Stage::CloudsCheck, settings, Report::Age(age)) == Stage::Render,
{
}

/// A run in progress.
pub struct Workflow {
    settings: Settings,
    stage: Stage,
}

impl Workflow {
    /// The settings of the run.
    pub closed spec fn settings(&self) -> SettingsView {
        self.settings@
    }

    /// The stage the run is in.
    pub closed spec fn spec_stage(&self) -> Stage {
        self.stage
    }

    /// Starts a run: the first task is to measure the batteries.
    pub fn start(settings: Settings) -> (r: (Workflow, Task))
        ensures
            r.0.settings() == settings@,
            r.0.spec_stage() == Stage::Battery,
            r.1@ == task_of(Stage::Battery, settings@),
    {
        (Workflow { settings, stage: Stage::Battery }, Task::QueryBattery)
    }

    /// The stage the run is in.
    pub fn stage(&self) -> (stage: Stage)
        ensures
            stage == self.spec_stage(),
    {
        self.stage
    }

    fn path(&self, name: &str) -> (path: String)
        ensures
            path@ == self.settings@.working_directory + name@,
    {
        let mut path = self.settings.working_directory.clone();
        path.append(name);
        path
    }

    /// The task of the current stage.
    pub fn task(&self) -> (task: Task)
        ensures
            task@ == task_of(self.spec_stage(), self.settings()),
    {
        match self.stage {
            Stage::Battery => Task::QueryBattery,
            Stage::Charging => Task::QueryCharging,
            Stage::ConfigCheck => Task::CheckFile { path: self.path("/down2earth.config") },
            Stage::ConfigWrite => {
                let clouds = self.path("/clouds.png");
                Task::WriteConfig {
                    path: self.path("/down2earth.config"),
                    text: create_xplanet_config(clouds.as_str()),
                }
            },
            Stage::CloudsCheck => Task::CheckAge { path: self.path("/clouds.png") },
            Stage::Download => Task::DownloadClouds {
                zoom: ZOOM_LEVEL,
                path: self.path("/clouds.png"),
            },
            Stage::Render => {
                let config = self.path("/down2earth.config");
                let output = self.path("/down2earth.png");
                Task::Render {
                    command: String::from_str(xplanet_command()),
                    arguments: generate_earth_map(
                        self.settings.geometry,
                        config.as_str(),
                        output.as_str(),
                    ),
                }
            },
            Stage::Wallpaper => Task::SetWallpaper { path: self.path("/down2earth.png") },
            Stage::Succeeded => Task::Finish(Ok(())),
            Stage::Failed(error) => Task::Finish(Err(error)),
        }
    }

    /// Takes the caller's report on the task of the current stage and
    /// names the next task.
    pub fn advance(self, report: Report) -> (r: (Workflow, Task))
        ensures
            r.0.settings() == self.settings(),
            r.0.spec_stage() == next_stage(self.spec_stage(), self.settings(), report),
            r.1@ == task_of(r.0.spec_stage(), self.settings()),
    {
        let stage = match (self.stage, report) {
            (Stage::Battery, Report::Battery(percentage)) => match power_gate(
                self.settings.force,
                percentage,
                self.settings.min_battery_percentage,
            ) {
                PowerVerdict::Proceed => Stage::ConfigCheck,
                PowerVerdict::ProceedIfCharging => Stage::Charging,
            },
            (Stage::Charging, Report::Charging(charging)) => if charging {
                Stage::ConfigCheck
            } else {
                Stage::Failed(Down2EarthError::PowerStatusExit)
            },
            (Stage::ConfigCheck, Report::Exists(exists)) => if exists {
                Stage::CloudsCheck
            } else {
                Stage::ConfigWrite
            },
            (Stage::ConfigWrite, Report::Succeeded) => Stage::CloudsCheck,
            (Stage::CloudsCheck, Report::Age(age)) => match age {
                None => Stage::Download,
                Some(elapsed) => if is_file_older_than(elapsed, self.settings.clouds_lifespan) {
                    Stage::Download
                } else {
                    Stage::Render
                },
            },
            (Stage::Download, Report::Succeeded) => Stage::Render,
            (Stage::Download, Report::Failed) => Stage::Failed(Down2EarthError::CloudDownloadError),
            (Stage::Render, Report::Succeeded) => Stage::Wallpaper,
            (Stage::Render, Report::Failed) => Stage::Failed(Down2EarthError::XPlanetError),
            (Stage::Wallpaper, Report::Succeeded) => Stage::Succeeded,
            (Stage::Wallpaper, Report::Failed) => Stage::Failed(
                Down2EarthError::SetWallpaperError,
            ),
            (stage, _) => stage,
        };
        let next = Workflow { settings: self.settings, stage };
        let task = next.task();
        (next, task)
    }
}

} // verus!
