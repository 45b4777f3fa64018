//! Downloading the cloud map: resolving the current snapshot, then fetching
//! every tile of the grid and copying it into the mosaic. The two state
//! machines here decide what to request next and when to give up; the caller
//! sends the requests and reports what came back.

use vstd::prelude::*;
use crate::grid::{pixel_height, pixel_width, tile_total, zoom_supported, TileCoordinate};
use crate::mosaic::{assembled, Mosaic};
use crate::product::resolved_product;
use crate::raster::{decoded_tile, Raster, RasterView};
use crate::request::{date_request, tile_request, Config, ConfigView, ProductIdentifiers,
    ProductView, Request};
use crate::retry::Retry;

verus! {

/// Why a request failed for good.
#[derive(Debug)]
pub enum HttpCause {
    /// No response arrived within the retry budget; the text describes the
    /// last transport failure.
    Transport(String),
    /// A response arrived with a status that is no success.
    Status(u16),
}

/// Why a download of the cloud map was abandoned.
#[derive(Debug)]
pub enum CloudDownloadError {
    /// The service answered 403: the access key is invalid or its quota is
    /// used up.
    AuthError,
    /// A request failed. `target` is the tile asked for, or `None` for the
    /// request of the snapshot tokens.
    HttpError { target: Option<TileCoordinate>, cause: HttpCause },
    /// The answer of the time endpoint does not have the expected shape.
    DateDecodeError,
    /// The body received for a tile is not an image.
    TileDecodeError { tile: TileCoordinate },
    /// The finished mosaic could not be written.
    ImageSaveError { detail: String },
}

/// Status codes that mean success.
pub open spec fn is_success(status: u16) -> bool {
    200 <= status <= 299
}

/// What the answer to the snapshot request amounts to: 403 is an
/// authorization failure, any other status outside 200 to 299 a failed
/// request, a body of another shape than expected a decode failure.
pub open spec fn date_outcome(
    status: u16,
    product: Option<ProductView>,
    r: Result<ProductIdentifiers, CloudDownloadError>,
) -> bool {
    if status == 403 {
        r == Err::<ProductIdentifiers, CloudDownloadError>(CloudDownloadError::AuthError)
    } else if !is_success(status) {
        r == Err::<ProductIdentifiers, CloudDownloadError>(
            CloudDownloadError::HttpError { target: None, cause: HttpCause::Status(status) },
        )
    } else if product is None {
        r == Err::<ProductIdentifiers, CloudDownloadError>(CloudDownloadError::DateDecodeError)
    } else {
        r is Ok && r->Ok_0@ == product->0
    }
}

/// A 403 is told apart from every other status that is no success: the one
/// is an authorization failure, the other a failed request that names the
/// status.
pub proof fn lemma_forbidden_told_apart(
    status: u16,
    product: Option<ProductView>,
    forbidden: Result<ProductIdentifiers, CloudDownloadError>,
    other: Result<ProductIdentifiers, CloudDownloadError>,
)
    requires
        status != 403,
        !is_success(status),
        date_outcome(403, product, forbidden),
        date_outcome(status, product, other),
    ensures
        forbidden is Err && forbidden->Err_0 is AuthError,
        other is Err && other->Err_0 is HttpError,
        other->Err_0->cause == HttpCause::Status(status),
        forbidden->Err_0 != other->Err_0,
{
}

/// The request for the tokens of the current snapshot, in flight.
pub struct DateResolver {
    config: Config,
    retry: Retry,
}

impl DateResolver {
    /// The configuration the resolver works with.
    pub closed spec fn config(&self) -> ConfigView {
        self.config@
    }

    /// Attempts sent so far, the one in flight included.
    pub closed spec fn attempts(&self) -> nat {
        self.retry.made as nat
    }

    /// Between one and `max_attempts` attempts have been sent.
    pub closed spec fn wf(&self) -> bool {
        self.retry.wf() && self.retry.max_attempts == self.config@.max_attempts
    }

    /// The retry budget is never exceeded.
    pub proof fn lemma_within_budget(&self)
        requires
            self.wf(),
        ensures
            1 <= self.attempts() <= self.config().max_attempts,
    {
    }

    /// Starts resolving: the first attempt of the snapshot request is to be
    /// sent.
    pub fn begin(config: Config) -> (r: (DateResolver, Request))
        ensures
            r.0.wf(),
            r.0.config() == config@,
            r.0.attempts() == 1,
            r.1@ == date_request(config@),
    {
        let request = config.date_request();
        let retry = Retry::start(config.max_attempts());
        (DateResolver { config, retry }, request)
    }

    /// The attempt in flight met a transport failure. While the budget
    /// lasts the same request is to be sent again; once it is spent the
    /// resolver gives up with the failure just reported.
    pub fn on_transport_failure(self, detail: String) -> (r: Result<
        (DateResolver, Request),
        CloudDownloadError,
    >)
        requires
            self.wf(),
        ensures
            r is Ok <==> self.attempts() < self.config().max_attempts,
            r is Ok ==> r->Ok_0.0.wf() && r->Ok_0.0.config() == self.config()
                && r->Ok_0.0.attempts() == self.attempts() + 1 && r->Ok_0.1@ == date_request(
                self.config(),
            ),
            r is Err ==> r->Err_0 == (CloudDownloadError::HttpError {
                target: None,
                cause: HttpCause::Transport(detail),
            }),
    {
        match self.retry.on_failure() {
            Some(retry) => {
                let request = self.config.date_request();
                Ok((DateResolver { config: self.config, retry }, request))
            },
            None => Err(
                CloudDownloadError::HttpError { target: None, cause: HttpCause::Transport(detail) },
            ),
        }
    }

    /// A response arrived and its body has been read: `product` is what the
    /// body holds for the product, if it has the expected shape.
    pub fn on_answer(self, status: u16, product: Option<ProductIdentifiers>) -> (r: Result<
        ProductIdentifiers,
        CloudDownloadError,
    >)
        ensures
            date_outcome(
                status,
                match product {
                    Some(p) => Some(p@),
                    None => None,
                },
                r,
            ),
    {
        if status == 403 {
            Err(CloudDownloadError::AuthError)
        } else if status < 200 || status > 299 {
            Err(CloudDownloadError::HttpError { target: None, cause: HttpCause::Status(status) })
        } else {
            match product {
                Some(p) => Ok(p),
                None => Err(CloudDownloadError::DateDecodeError),
            }
        }
    }

    /// A response arrived. Whatever its status, no further attempt is made:
    /// the outcome is the tokens or the reason there are none.
    pub fn on_response(self, status: u16, body: &[u8]) -> (r: Result<
        ProductIdentifiers,
        CloudDownloadError,
    >)
        ensures
            date_outcome(status, resolved_product(body@, self.config().product), r),
    {
        if status < 200 || status > 299 {
            return self.on_answer(status, None);
        }
        let product = ProductIdentifiers::parse(body, self.config.product());
        self.on_answer(status, product)
    }
}

/// What the written mosaic amounts to: success, or a save failure with the
/// reason reported.
pub fn save_outcome(saved: Result<(), String>) -> (r: Result<(), CloudDownloadError>)
    ensures
        saved is Ok ==> r is Ok,
        saved is Err ==> r == Err::<(), CloudDownloadError>(
            CloudDownloadError::ImageSaveError { detail: saved->Err_0 },
        ),
{
    match saved {
        Ok(()) => Ok(()),
        Err(detail) => Err(CloudDownloadError::ImageSaveError { detail }),
    }
}

/// The tiles of a mosaic being fetched: the tiles copied in so far, and the
/// request for the next one in flight.
pub struct MosaicBuilder {
    config: Config,
    product: ProductIdentifiers,
    mosaic: Mosaic,
    retry: Retry,
}

/// How a build goes on after a tile has arrived.
pub enum Progress {
    /// The tile was copied in; the request for the next tile is to be sent.
    Fetch(MosaicBuilder, Request),
    /// The last tile was copied in; the mosaic is ready to be written.
    Complete(Raster),
}

/// What a response to a tile request amounts to. A 403 is an authorization
/// failure and a body that is no image a decode failure, each ending the
/// build; else the tile is copied into the cell it was asked for, and the
/// build goes on with the next cell or, after the last one, hands out the
/// finished mosaic.
pub open spec fn tile_outcome(
    pre: MosaicBuilder,
    status: u16,
    tile: Option<RasterView>,
    r: Result<Progress, CloudDownloadError>,
) -> bool {
    if status == 403 {
        r == Err::<Progress, CloudDownloadError>(CloudDownloadError::AuthError)
    } else if tile is None {
        r == Err::<Progress, CloudDownloadError>(
            CloudDownloadError::TileDecodeError { tile: pre.cursor() },
        )
    } else if pre.tiles().len() + 1 == tile_total(pre.zoom()) {
        &&& r matches Ok(Progress::Complete(raster))
        &&& raster.wf()
        &&& raster@ == assembled(pre.zoom(), pre.tiles().push(tile->0))
        &&& raster@.width == pixel_width(pre.zoom())
        &&& raster@.height == pixel_height(pre.zoom())
    } else {
        &&& r matches Ok(Progress::Fetch(next, request))
        &&& next.wf()
        &&& next.config() == pre.config()
        &&& next.product() == pre.product()
        &&& next.zoom() == pre.zoom()
        &&& next.tiles() == pre.tiles().push(tile->0)
        &&& next.attempts() == 1
        &&& request@ == tile_request(pre.config(), pre.product(), pre.zoom(), next.cursor())
    }
}

impl MosaicBuilder {
    /// The configuration the build works with.
    pub closed spec fn config(&self) -> ConfigView {
        self.config@
    }

    /// The snapshot whose tiles are fetched.
    pub closed spec fn product(&self) -> ProductView {
        self.product@
    }

    /// Zoom level of the mosaic.
    pub closed spec fn zoom(&self) -> nat {
        self.mosaic.zoom_level()
    }

    /// The tiles copied in so far, in visiting order.
    pub closed spec fn tiles(&self) -> Seq<RasterView> {
        self.mosaic.tiles()
    }

    /// Attempts sent so far for the tile in flight, that one included.
    pub closed spec fn attempts(&self) -> nat {
        self.retry.made as nat
    }

    /// The coordinate of the tile in flight.
    pub open spec fn cursor(&self) -> TileCoordinate {
        TileCoordinate::at(self.zoom(), self.tiles().len())
    }

    /// The mosaic holds the tiles so far, at least one cell is still empty,
    /// and between one and `max_attempts` attempts have been sent for it.
    pub closed spec fn wf(&self) -> bool {
        &&& self.mosaic.wf()
        &&& !self.mosaic.is_complete()
        &&& self.retry.wf()
        &&& self.retry.max_attempts == self.config@.max_attempts
    }

    /// While a build is under way the zoom level is supported, some cell is
    /// still empty, and the retry budget is not exceeded.
    pub proof fn lemma_wf(&self)
        requires
            self.wf(),
        ensures
            zoom_supported(self.zoom()),
            self.tiles().len() < tile_total(self.zoom()),
            1 <= self.attempts() <= self.config().max_attempts,
    {
        self.mosaic.lemma_wf();
    }

    /// Starts a build on an empty mosaic: the request for the first tile is
    /// to be sent.
    pub fn begin(config: Config, product: ProductIdentifiers, zoom: u32) -> (r: (
        MosaicBuilder,
        Request,
    ))
        requires
            zoom_supported(zoom as nat),
        ensures
            r.0.wf(),
            r.0.config() == config@,
            r.0.product() == product@,
            r.0.zoom() == zoom,
            r.0.tiles() == Seq::<RasterView>::empty(),
            r.0.attempts() == 1,
            r.1@ == tile_request(config@, product@, zoom as nat, TileCoordinate { x: 0, y: 0 }),
    {
        let mosaic = Mosaic::new(zoom);
        let first = mosaic.cursor();
        proof {
            TileCoordinate::lemma_at_zero(zoom as nat);
        }
        let at = first.unwrap();
        let request = config.tile_request(&product, zoom, at);
        let retry = Retry::start(config.max_attempts());
        (MosaicBuilder { config, product, mosaic, retry }, request)
    }

    /// The attempt in flight met a transport failure. While the budget
    /// lasts the same tile is to be asked for again; once it is spent the
    /// build is abandoned with the failure just reported, and the mosaic is
    /// dropped.
    pub fn on_transport_failure(self, detail: String) -> (r: Result<
        (MosaicBuilder, Request),
        CloudDownloadError,
    >)
        requires
            self.wf(),
        ensures
            r is Ok <==> self.attempts() < self.config().max_attempts,
            r is Ok ==> r->Ok_0.0.wf() && r->Ok_0.0.config() == self.config()
                && r->Ok_0.0.product() == self.product() && r->Ok_0.0.zoom() == self.zoom()
                && r->Ok_0.0.tiles() == self.tiles() && r->Ok_0.0.attempts() == self.attempts() + 1
                && r->Ok_0.1@ == tile_request(
                self.config(),
                self.product(),
                self.zoom(),
                self.cursor(),
            ),
            r is Err ==> r->Err_0 == (CloudDownloadError::HttpError {
                target: Some(self.cursor()),
                cause: HttpCause::Transport(detail),
            }),
    {
        let at = self.mosaic.cursor().unwrap();
        match self.retry.on_failure() {
            Some(retry) => {
                let request = self.config.tile_request(&self.product, self.mosaic.zoom(), at);
                Ok(
                    (
                        MosaicBuilder {
                            config: self.config,
                            product: self.product,
                            mosaic: self.mosaic,
                            retry,
                        },
                        request,
                    ),
                )
            },
            None => Err(
                CloudDownloadError::HttpError {
                    target: Some(at),
                    cause: HttpCause::Transport(detail),
                },
            ),
        }
    }

    /// A response arrived and its body has been decoded: `tile` is the
    /// image it holds, if it is one.
    pub fn on_tile(self, status: u16, tile: Option<Raster>) -> (r: Result<
        Progress,
        CloudDownloadError,
    >)
        requires
            self.wf(),
            tile is Some ==> tile->0.wf(),
        ensures
            tile_outcome(
                self,
                status,
                match tile {
                    Some(t) => Some(t@),
                    None => None,
                },
                r,
            ),
    {
        let at = self.mosaic.cursor().unwrap();
        if status == 403 {
            return Err(CloudDownloadError::AuthError);
        }
        let tile = match tile {
            Some(tile) => tile,
            None => {
                return Err(CloudDownloadError::TileDecodeError { tile: at });
            },
        };
        let mut mosaic = self.mosaic;
        mosaic.place(&tile);
        proof {
            mosaic.lemma_wf();
        }
        match mosaic.cursor() {
            Some(next) => {
                let request = self.config.tile_request(&self.product, mosaic.zoom(), next);
                let retry = Retry::start(self.config.max_attempts());
                Ok(
                    Progress::Fetch(
                        MosaicBuilder { config: self.config, product: self.product, mosaic, retry },
                        request,
                    ),
                )
            },
            None => Ok(Progress::Complete(mosaic.into_raster())),
        }
    }

    /// A response arrived. Whatever its status, the tile is not asked for
    /// again.
    pub fn on_response(self, status: u16, body: &[u8]) -> (r: Result<
        Progress,
        CloudDownloadError,
    >)
        requires
            self.wf(),
        ensures
            tile_outcome(self, status, decoded_tile(body@), r),
    {
        if status == 403 {
            return self.on_tile(status, None);
        }
        let tile = Raster::decode(body);
        self.on_tile(status, tile)
    }
}

/// A mosaic is handed out only when it is whole: the response was no 403,
/// its body was an image, and that image filled the last empty cell. A
/// build that fails hands out nothing.
pub proof fn lemma_mosaic_only_when_whole(
    pre: MosaicBuilder,
    status: u16,
    tile: Option<RasterView>,
    r: Result<Progress, CloudDownloadError>,
)
    requires
        tile_outcome(pre, status, tile, r),
    ensures
        r is Err <==> status == 403 || tile is None,
        r is Ok && r->Ok_0 is Complete <==> status != 403 && tile is Some && pre.tiles().len() + 1
            == tile_total(pre.zoom()),
        r is Ok && r->Ok_0 is Complete ==> r->Ok_0->Complete_0@ == assembled(
            pre.zoom(),
            pre.tiles().push(tile->0),
        ) && pre.tiles().push(tile->0).len() == tile_total(pre.zoom()),
{
}

/// The tiles that the bodies of a run of tile responses decode to.
pub open spec fn decoded_tiles(bodies: Seq<Seq<u8>>) -> Seq<RasterView> {
    Seq::new(bodies.len(), |k: int| decoded_tile(bodies[k])->0)
}

/// The mosaic of a build whose tile requests were answered, in visiting
/// order, with the given bodies.
pub open spec fn mosaic_of(zoom: nat, bodies: Seq<Seq<u8>>) -> RasterView {
    assembled(zoom, decoded_tiles(bodies))
}

/// A build whose tiles so far came from `bodies` goes on, when the next
/// response carries `body`, to a state whose tiles come from `bodies` with
/// `body` added; after the last tile the mosaic handed out is the mosaic of
/// all the bodies.
pub proof fn lemma_tiles_follow_bodies(
    pre: MosaicBuilder,
    bodies: Seq<Seq<u8>>,
    status: u16,
    body: Seq<u8>,
    r: Result<Progress, CloudDownloadError>,
)
    requires
        pre.tiles() == decoded_tiles(bodies),
        status != 403,
        decoded_tile(body) is Some,
        tile_outcome(pre, status, decoded_tile(body), r),
    ensures
        r is Ok,
        r->Ok_0 is Fetch ==> r->Ok_0->Fetch_0.tiles() == decoded_tiles(bodies.push(body)),
        r->Ok_0 is Complete ==> r->Ok_0->Complete_0@ == mosaic_of(pre.zoom(), bodies.push(body)),
{
    assert(decoded_tiles(bodies.push(body)) =~= decoded_tiles(bodies).push(
        decoded_tile(body)->0,
    ));
}

/// Building twice gives the same mosaic: at one zoom level, tile responses
/// with the same bodies lead to mosaics that agree in size and in every
/// sample.
pub proof fn lemma_build_repeatable(zoom: nat, first: Seq<Seq<u8>>, second: Seq<Seq<u8>>)
    requires
        first.len() == second.len(),
        forall|k: int| 0 <= k < first.len() ==> first[k] == second[k],
    ensures
        mosaic_of(zoom, first) == mosaic_of(zoom, second),
        mosaic_of(zoom, first).data == mosaic_of(zoom, second).data,
{
    assert(first =~= second);
}

/// One step of two builds in the same position, answered with the same
/// body, ends alike: both fail, both go on with the same tiles, or both
/// hand out the same mosaic.
pub proof fn lemma_step_repeatable(
    a: MosaicBuilder,
    b: MosaicBuilder,
    status: u16,
    body: Seq<u8>,
    ra: Result<Progress, CloudDownloadError>,
    rb: Result<Progress, CloudDownloadError>,
)
    requires
        a.zoom() == b.zoom(),
        a.tiles() == b.tiles(),
        tile_outcome(a, status, decoded_tile(body), ra),
        tile_outcome(b, status, decoded_tile(body), rb),
    ensures
        ra is Err <==> rb is Err,
        ra is Err ==> ra->Err_0 == rb->Err_0,
        ra is Ok ==> (ra->Ok_0 is Complete <==> rb->Ok_0 is Complete),
        ra is Ok && ra->Ok_0 is Complete ==> ra->Ok_0->Complete_0@ == rb->Ok_0->Complete_0@,
        ra is Ok && ra->Ok_0 is Fetch ==> ra->Ok_0->Fetch_0.tiles() == rb->Ok_0->Fetch_0.tiles(),
{
}

/// Advice for the user on an abandoned download.
pub open spec fn explanation(error: CloudDownloadError) -> Seq<char> {
    match error {
        CloudDownloadError::AuthError =>
            "There was an authorization error trying to download the cloud map. Check that your API Key is valid, and that you haven't hit your usage limit."@,
        CloudDownloadError::HttpError { .. } =>
            "There was an unknown error downloading the cloud map. The most likely cause is that you're not connected to the internet. Or it could be that the service is down or discontinued."@,
        CloudDownloadError::DateDecodeError => "There was an error downloading the cloud map."@,
        CloudDownloadError::TileDecodeError { .. } =>
            "There was an error downloading the cloud map."@,
        CloudDownloadError::ImageSaveError { .. } => "There was an error saving the cloud map."@,
    }
}

/// An authorization failure is explained in other words than any failed
/// request.
pub proof fn lemma_authorization_told_apart(other: CloudDownloadError)
    requires
        other is HttpError,
    ensures
        explanation(CloudDownloadError::AuthError) != explanation(other),
{
    reveal_strlit(
        "There was an authorization error trying to download the cloud map. Check that your API Key is valid, and that you haven't hit your usage limit.",
    );
    reveal_strlit(
        "There was an unknown error downloading the cloud map. The most likely cause is that you're not connected to the internet. Or it could be that the service is down or discontinued.",
    );
    assert(explanation(CloudDownloadError::AuthError)[13] == 'a');
    assert(explanation(other)[13] == 'u');
}

impl CloudDownloadError {
    /// Advice for the user; it never holds the access key.
    pub fn explain(&self) -> (text: &'static str)
        ensures
            text@ == explanation(*self),
    {
        match self {
            CloudDownloadError::AuthError =>
                "There was an authorization error trying to download the cloud map. Check that your API Key is valid, and that you haven't hit your usage limit.",
            CloudDownloadError::HttpError { .. } =>
                "There was an unknown error downloading the cloud map. The most likely cause is that you're not connected to the internet. Or it could be that the service is down or discontinued.",
            CloudDownloadError::DateDecodeError => "There was an error downloading the cloud map.",
            CloudDownloadError::TileDecodeError { .. } =>
                "There was an error downloading the cloud map.",
            CloudDownloadError::ImageSaveError { .. } => "There was an error saving the cloud map.",
        }
    }
}

} // verus!
