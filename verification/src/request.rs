//! The requests a build sends: the configuration of the tile service and
//! the exact form of the two URLs.

use vstd::prelude::*;
use vstd::string::*;
use crate::grid::TileCoordinate;
use crate::retry::DEFAULT_ATTEMPTS;
use crate::text::{append_decimal, decimal};

verus! {

/// Model of a `Config`.
pub struct ConfigView {
    pub api_base: Seq<char>,
    pub product: Seq<char>,
    pub access_key: Option<Seq<char>>,
    pub max_attempts: nat,
}

/// Where the tiles come from and how hard to try: the base URL of the
/// service, the name of the imagery product, the access key if there is
/// one, and the number of attempts each request may use.
pub struct Config {
    api_base: String,
    product: String,
    access_key: Option<String>,
    max_attempts: u32,
}

impl View for Config {
    type V = ConfigView;

    closed spec fn view(&self) -> ConfigView {
        ConfigView {
            api_base: self.api_base@,
            product: self.product@,
            access_key: match self.access_key {
                Some(key) => Some(key@),
                None => None,
            },
            max_attempts: self.max_attempts as nat,
        }
    }
}

/// Model of a `ProductIdentifiers`.
pub struct ProductView {
    pub token0: Seq<char>,
    pub token1: Seq<char>,
}

/// The two tokens that name the imagery snapshot currently published.
#[derive(Debug)]
pub struct ProductIdentifiers {
    pub token0: String,
    pub token1: String,
}

impl View for ProductIdentifiers {
    type V = ProductView;

    open spec fn view(&self) -> ProductView {
        ProductView { token0: self.token0@, token1: self.token1@ }
    }
}

/// Model of a `Request`.
pub struct RequestView {
    pub url: Seq<char>,
    pub header: Option<(Seq<char>, Seq<char>)>,
}

/// A GET request: the URL, and the one header to attach if any.
#[derive(Debug)]
pub struct Request {
    pub url: String,
    pub header: Option<(String, String)>,
}

impl View for Request {
    type V = RequestView;

    open spec fn view(&self) -> RequestView {
        RequestView {
            url: self.url@,
            header: match self.header {
                Some((name, value)) => Some((name@, value@)),
                None => None,
            },
        }
    }
}

/// The header that carries the access key, where one is configured.
pub open spec fn access_header(config: ConfigView) -> Option<(Seq<char>, Seq<char>)> {
    match config.access_key {
        Some(key) => Some(("RE-Access-Key"@, key)),
        None => None,
    }
}

/// URL that asks for the tokens of the current snapshot.
pub open spec fn date_url(config: ConfigView) -> Seq<char> {
    config.api_base + "/time?products="@ + config.product
}

/// URL of the tile at a coordinate of a zoom level.
pub open spec fn tile_url(
    config: ConfigView,
    product: ProductView,
    zoom: nat,
    at: TileCoordinate,
) -> Seq<char> {
    config.api_base + "/image?products="@ + config.product + "_"@ + product.token0 + "_"@
        + product.token1 + "&equirectangular=true&z="@ + decimal(zoom) + "&x="@ + decimal(
        at.x as nat,
    ) + "&y="@ + decimal(at.y as nat)
}

/// The request for the tokens of the current snapshot.
pub open spec fn date_request(config: ConfigView) -> RequestView {
    RequestView { url: date_url(config), header: access_header(config) }
}

/// The request for one tile.
pub open spec fn tile_request(
    config: ConfigView,
    product: ProductView,
    zoom: nat,
    at: TileCoordinate,
) -> RequestView {
    RequestView { url: tile_url(config, product, zoom, at), header: access_header(config) }
}

impl Config {
    /// A configuration, or `None` where not even one attempt is allowed.
    pub fn new(
        api_base: String,
        product: String,
        access_key: Option<String>,
        max_attempts: u32,
    ) -> (c: Option<Config>)
        ensures
            c is Some <==> max_attempts >= 1,
            c is Some ==> c->0@ == (ConfigView {
                api_base: api_base@,
                product: product@,
                access_key: match access_key {
                    Some(key) => Some(key@),
                    None => None,
                },
                max_attempts: max_attempts as nat,
            }),
    {
        if max_attempts >= 1 {
            Some(Config { api_base, product, access_key, max_attempts })
        } else {
            None
        }
    }

    /// The RealEarth service of SSEC, its global infrared product, and the
    /// default number of attempts.
    pub fn standard(access_key: Option<String>) -> (c: Config)
        ensures
            c@ == (ConfigView {
                api_base: "https://re.ssec.wisc.edu/api"@,
                product: "globalir"@,
                access_key: match access_key {
                    Some(key) => Some(key@),
                    None => None,
                },
                max_attempts: DEFAULT_ATTEMPTS as nat,
            }),
    {
        Config {
            api_base: String::from_str("https://re.ssec.wisc.edu/api"),
            product: String::from_str("globalir"),
            access_key,
            max_attempts: DEFAULT_ATTEMPTS,
        }
    }

    #[verifier::type_invariant]
    spec fn attempts_positive(&self) -> bool {
        self.max_attempts >= 1
    }

    /// A second configuration with the same contents.
    pub fn duplicate(&self) -> (c: Config)
        ensures
            c@ == self@,
    {
        proof {
            use_type_invariant(self);
        }
        let access_key = match &self.access_key {
            Some(key) => Some(key.clone()),
            None => None,
        };
        Config {
            api_base: self.api_base.clone(),
            product: self.product.clone(),
            access_key,
            max_attempts: self.max_attempts,
        }
    }

    /// Name of the imagery product.
    pub fn product(&self) -> (name: &String)
        ensures
            name@ == self@.product,
    {
        &self.product
    }

    /// Number of attempts each request may use.
    pub fn max_attempts(&self) -> (n: u32)
        ensures
            n == self@.max_attempts,
            n >= 1,
    {
        proof {
            use_type_invariant(self);
        }
        self.max_attempts
    }

    fn header(&self) -> (h: Option<(String, String)>)
        ensures
            (match h {
                Some((name, value)) => Some((name@, value@)),
                None => None,
            }) == access_header(self@),
    {
        match &self.access_key {
            Some(key) => Some((String::from_str("RE-Access-Key"), key.clone())),
            None => None,
        }
    }

    /// Builds the request for the tokens of the current snapshot.
    pub fn date_request(&self) -> (r: Request)
        ensures
            r@ == date_request(self@),
    {
        let mut url = self.api_base.clone();
        url.append("/time?products=");
        url.append(self.product.as_str());
        Request { url, header: self.header() }
    }

    /// Builds the request for the tile at `at`.
    pub fn tile_request(&self, product: &ProductIdentifiers, zoom: u32, at: TileCoordinate) -> (r:
        Request)
        ensures
            r@ == tile_request(self@, product@, zoom as nat, at),
    {
        let mut url = self.api_base.clone();
        url.append("/image?products=");
        url.append(self.product.as_str());
        url.append("_");
        url.append(product.token0.as_str());
        url.append("_");
        url.append(product.token1.as_str());
        url.append("&equirectangular=true&z=");
        append_decimal(&mut url, zoom);
        url.append("&x=");
        append_decimal(&mut url, at.x);
        url.append("&y=");
        append_decimal(&mut url, at.y);
        Request { url, header: self.header() }
    }
}

} // verus!
