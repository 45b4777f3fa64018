use down2earth::clouds::{save_outcome, CloudDownloadError, DateResolver, HttpCause, MosaicBuilder,
    Progress};
use down2earth::grid::TileCoordinate;
use down2earth::raster::Raster;
use down2earth::request::{Config, ProductIdentifiers, Request};

fn snapshot() -> ProductIdentifiers {
    ProductIdentifiers { token0: String::from("20240229"), token1: String::from("183000") }
}

fn tile_png(seed: u8) -> Vec<u8> {
    let mut data = Vec::with_capacity(256 * 256 * 3);
    for j in 0..256u32 {
        for i in 0..256u32 {
            data.push(seed);
            data.push(i as u8);
            data.push(j as u8);
        }
    }
    let picture = image::RgbImage::from_raw(256, 256, data).unwrap();
    let mut out = std::io::Cursor::new(Vec::new());
    picture.write_to(&mut out, image::ImageFormat::Png).unwrap();
    out.into_inner()
}

fn build(zoom: u32, bodies: &[Vec<u8>]) -> (Vec<String>, Raster) {
    let (mut builder, mut request) = MosaicBuilder::begin(Config::standard(None), snapshot(), zoom);
    let mut urls = vec![];
    for body in bodies {
        urls.push(request.url.clone());
        match builder.on_response(200, body).unwrap() {
            Progress::Fetch(next, following) => {
                builder = next;
                request = following;
            },
            Progress::Complete(raster) => return (urls, raster),
        }
    }
    panic!("the build wants more tiles than were given")
}

const BASE: &str =
    "https://re.ssec.wisc.edu/api/image?products=globalir_20240229_183000&equirectangular=true";

#[test]
fn resolver_starts_with_the_date_request() {
    let (_, request) = DateResolver::begin(Config::standard(None));
    assert_eq!(request.url, "https://re.ssec.wisc.edu/api/time?products=globalir");
    assert_eq!(request.header, None);
}

#[test]
fn resolver_returns_the_tokens_of_a_good_answer() {
    let (resolver, _) = DateResolver::begin(Config::standard(None));
    let product = resolver.on_response(200, b"{\"globalir\":[\"20240229\",\"183000\"]}").unwrap();
    assert_eq!(product.token0, "20240229");
    assert_eq!(product.token1, "183000");
}

#[test]
fn resolver_reports_403_as_an_authorization_failure() {
    let (resolver, _) = DateResolver::begin(Config::standard(Some(String::from("key"))));
    let outcome = resolver.on_response(403, b"{\"globalir\":[\"20240229\",\"183000\"]}");
    assert!(matches!(outcome, Err(CloudDownloadError::AuthError)));
}

#[test]
fn resolver_reports_500_as_a_failed_request() {
    let (resolver, _) = DateResolver::begin(Config::standard(None));
    let outcome = resolver.on_response(500, b"{\"globalir\":[\"20240229\",\"183000\"]}");
    assert!(matches!(
        outcome,
        Err(CloudDownloadError::HttpError { target: None, cause: HttpCause::Status(500) })
    ));
}

#[test]
fn resolver_accepts_only_success_statuses() {
    let body = b"{\"globalir\":[\"a\",\"b\"]}";
    for status in [0u16, 100, 199, 300, 301, 404, 429, 503, 999] {
        let (resolver, _) = DateResolver::begin(Config::standard(None));
        match resolver.on_response(status, body) {
            Err(CloudDownloadError::HttpError { target: None, cause: HttpCause::Status(s) }) => {
                assert_eq!(s, status)
            },
            other => panic!("status {status} gave {other:?}"),
        }
    }
    for status in [200u16, 201, 204, 299] {
        let (resolver, _) = DateResolver::begin(Config::standard(None));
        assert!(resolver.on_response(status, body).is_ok());
    }
}

#[test]
fn resolver_reports_a_body_of_another_shape() {
    for body in ["", "not json", "{}", "{\"globalir\":[\"a\"]}", "{\"other\":[\"a\",\"b\"]}"] {
        let (resolver, _) = DateResolver::begin(Config::standard(None));
        let outcome = resolver.on_response(200, body.as_bytes());
        assert!(matches!(outcome, Err(CloudDownloadError::DateDecodeError)));
    }
}

#[test]
fn resolver_looks_for_the_configured_product() {
    let config =
        Config::new(String::from("http://h/api"), String::from("globalvis"), None, 3).unwrap();
    let (resolver, request) = DateResolver::begin(config);
    assert_eq!(request.url, "http://h/api/time?products=globalvis");
    let product = resolver.on_response(200, b"{\"globalvis\":[\"x\",\"y\"]}").unwrap();
    assert_eq!((product.token0.as_str(), product.token1.as_str()), ("x", "y"));
}

#[test]
fn resolver_takes_the_answer_it_is_handed() {
    let (resolver, _) = DateResolver::begin(Config::standard(None));
    assert_eq!(resolver.on_answer(200, Some(snapshot())).unwrap().token1, "183000");
    let (resolver, _) = DateResolver::begin(Config::standard(None));
    assert!(matches!(resolver.on_answer(200, None), Err(CloudDownloadError::DateDecodeError)));
    let (resolver, _) = DateResolver::begin(Config::standard(None));
    assert!(matches!(
        resolver.on_answer(403, Some(snapshot())),
        Err(CloudDownloadError::AuthError)
    ));
}

#[test]
fn resolver_retries_twice_then_gives_up() {
    let (resolver, first) = DateResolver::begin(Config::standard(None));
    let (resolver, second) = resolver.on_transport_failure(String::from("timeout")).unwrap();
    assert_eq!(second.url, first.url);
    let (resolver, third) = resolver.on_transport_failure(String::from("reset")).unwrap();
    assert_eq!(third.url, first.url);
    match resolver.on_transport_failure(String::from("dns")) {
        Err(CloudDownloadError::HttpError { target: None, cause: HttpCause::Transport(detail) }) => {
            assert_eq!(detail, "dns")
        },
        other => panic!("unexpected outcome {:?}", other.map(|_| ())),
    }
}

#[test]
fn third_attempt_may_still_succeed() {
    let (resolver, _) = DateResolver::begin(Config::standard(None));
    let (resolver, _) = resolver.on_transport_failure(String::from("timeout")).unwrap();
    let (resolver, _) = resolver.on_transport_failure(String::from("timeout")).unwrap();
    let product = resolver.on_response(200, b"{\"globalir\":[\"third\",\"try\"]}").unwrap();
    assert_eq!((product.token0.as_str(), product.token1.as_str()), ("third", "try"));
}

#[test]
fn zoom_zero_build_fetches_two_tiles() {
    let left = tile_png(10);
    let right = tile_png(20);
    let (urls, raster) = build(0, &[left.clone(), right.clone()]);
    assert_eq!(urls, vec![format!("{BASE}&z=0&x=0&y=0"), format!("{BASE}&z=0&x=1&y=0")]);
    assert_eq!((raster.width(), raster.height()), (512, 256));
    let left = Raster::decode(&left).unwrap();
    let right = Raster::decode(&right).unwrap();
    for j in 0..256u32 {
        for i in 0..256u32 {
            assert_eq!(raster.pixel(i, j), left.pixel(i, j));
            assert_eq!(raster.pixel(256 + i, j), right.pixel(i, j));
        }
    }
}

#[test]
fn zoom_one_build_asks_for_tiles_column_by_column() {
    let bodies: Vec<Vec<u8>> = (0..8).map(|k| tile_png(k as u8 + 1)).collect();
    let (urls, raster) = build(1, &bodies);
    let expected: Vec<String> = [(0, 0), (0, 1), (1, 0), (1, 1), (2, 0), (2, 1), (3, 0), (3, 1)]
        .iter()
        .map(|(x, y)| format!("{BASE}&z=1&x={x}&y={y}"))
        .collect();
    assert_eq!(urls, expected);
    assert_eq!((raster.width(), raster.height()), (1024, 512));
    for (k, (x, y)) in [(0u32, 0u32), (0, 1), (1, 0), (1, 1), (2, 0), (2, 1), (3, 0), (3, 1)]
        .iter()
        .enumerate()
    {
        assert_eq!(raster.pixel(x * 256 + 5, y * 256 + 9), Some((k as u8 + 1, 5, 9)));
    }
}

#[test]
fn same_tiles_give_the_same_mosaic() {
    let bodies = vec![tile_png(1), tile_png(2)];
    let (first_urls, first) = build(0, &bodies);
    let (second_urls, second) = build(0, &bodies);
    assert_eq!(first_urls, second_urls);
    assert_eq!((first.width(), first.height()), (second.width(), second.height()));
    assert_eq!(first.into_raw(), second.into_raw());
}

#[test]
fn tile_fetch_gives_up_after_three_failures() {
    let (builder, _) = MosaicBuilder::begin(Config::standard(None), snapshot(), 0);
    let builder = match builder.on_response(200, &tile_png(1)).unwrap() {
        Progress::Fetch(next, request) => {
            assert_eq!(request.url, format!("{BASE}&z=0&x=1&y=0"));
            next
        },
        Progress::Complete(_) => panic!("one tile cannot complete the mosaic"),
    };
    let (builder, again) = builder.on_transport_failure(String::from("one")).unwrap();
    assert_eq!(again.url, format!("{BASE}&z=0&x=1&y=0"));
    let (builder, again) = builder.on_transport_failure(String::from("two")).unwrap();
    assert_eq!(again.url, format!("{BASE}&z=0&x=1&y=0"));
    match builder.on_transport_failure(String::from("three")) {
        Err(CloudDownloadError::HttpError { target, cause: HttpCause::Transport(detail) }) => {
            assert_eq!(target, Some(TileCoordinate { x: 1, y: 0 }));
            assert_eq!(detail, "three");
        },
        other => panic!("unexpected outcome {:?}", other.map(|_| ())),
    }
}

#[test]
fn each_tile_has_its_own_budget() {
    let (builder, _) = MosaicBuilder::begin(Config::standard(None), snapshot(), 0);
    let (builder, _) = builder.on_transport_failure(String::from("a")).unwrap();
    let (builder, _) = builder.on_transport_failure(String::from("b")).unwrap();
    let builder = match builder.on_response(200, &tile_png(1)).unwrap() {
        Progress::Fetch(next, _) => next,
        Progress::Complete(_) => panic!("one tile cannot complete the mosaic"),
    };
    let (builder, _) = builder.on_transport_failure(String::from("c")).unwrap();
    let (builder, _) = builder.on_transport_failure(String::from("d")).unwrap();
    assert!(matches!(builder.on_response(200, &tile_png(2)), Ok(Progress::Complete(_))));
}

#[test]
fn budget_of_one_gives_up_at_the_first_failure() {
    let config = Config::new(String::from("http://h"), String::from("p"), None, 1).unwrap();
    let (builder, _) = MosaicBuilder::begin(config, snapshot(), 0);
    assert!(matches!(
        builder.on_transport_failure(String::from("down")),
        Err(CloudDownloadError::HttpError {
            target: Some(TileCoordinate { x: 0, y: 0 }),
            cause: HttpCause::Transport(_)
        })
    ));
}

#[test]
fn tile_that_is_no_image_ends_the_build() {
    let (builder, _) = MosaicBuilder::begin(Config::standard(None), snapshot(), 1);
    let builder = match builder.on_response(200, &tile_png(1)).unwrap() {
        Progress::Fetch(next, _) => next,
        Progress::Complete(_) => panic!("one tile cannot complete the mosaic"),
    };
    assert!(matches!(
        builder.on_response(200, b"<html>oops</html>"),
        Err(CloudDownloadError::TileDecodeError { tile: TileCoordinate { x: 0, y: 1 } })
    ));
}

#[test]
fn tile_answered_with_403_ends_the_build() {
    let (builder, _) = MosaicBuilder::begin(Config::standard(None), snapshot(), 0);
    assert!(matches!(
        builder.on_response(403, &tile_png(1)),
        Err(CloudDownloadError::AuthError)
    ));
}

#[test]
fn builder_takes_the_tile_it_is_handed() {
    let (builder, _) = MosaicBuilder::begin(Config::standard(None), snapshot(), 0);
    let tile = Raster::from_raw(256, 256, vec![7; 256 * 256 * 3]).unwrap();
    let builder = match builder.on_tile(200, Some(tile)).unwrap() {
        Progress::Fetch(next, _) => next,
        Progress::Complete(_) => panic!("one tile cannot complete the mosaic"),
    };
    assert!(matches!(
        builder.on_tile(200, None),
        Err(CloudDownloadError::TileDecodeError { tile: TileCoordinate { x: 1, y: 0 } })
    ));
}

#[test]
fn requests_of_a_build_carry_the_access_key() {
    let config = Config::standard(Some(String::from("key")));
    let (builder, first) = MosaicBuilder::begin(config, snapshot(), 0);
    let expected = Some((String::from("RE-Access-Key"), String::from("key")));
    assert_eq!(first.header, expected);
    let (builder, again) = builder.on_transport_failure(String::from("x")).unwrap();
    assert_eq!(again.header, expected);
    match builder.on_response(200, &tile_png(1)).unwrap() {
        Progress::Fetch(_, Request { header, .. }) => assert_eq!(header, expected),
        Progress::Complete(_) => panic!("one tile cannot complete the mosaic"),
    }
}

#[test]
fn save_failure_is_reported_with_its_reason() {
    assert!(save_outcome(Ok(())).is_ok());
    match save_outcome(Err(String::from("disk full"))) {
        Err(CloudDownloadError::ImageSaveError { detail }) => assert_eq!(detail, "disk full"),
        other => panic!("unexpected outcome {other:?}"),
    }
}

#[test]
fn authorization_failure_is_explained_apart() {
    let auth = CloudDownloadError::AuthError.explain();
    let http = CloudDownloadError::HttpError {
        target: None,
        cause: HttpCause::Transport(String::from("timeout")),
    }
    .explain();
    assert_ne!(auth, http);
    assert!(auth.contains("API Key"));
    assert!(http.contains("not connected to the internet"));
}

#[test]
fn explanations_of_the_other_failures() {
    assert_eq!(
        CloudDownloadError::DateDecodeError.explain(),
        "There was an error downloading the cloud map."
    );
    assert_eq!(
        CloudDownloadError::TileDecodeError { tile: TileCoordinate { x: 0, y: 0 } }.explain(),
        "There was an error downloading the cloud map."
    );
    assert_eq!(
        CloudDownloadError::ImageSaveError { detail: String::from("x") }.explain(),
        "There was an error saving the cloud map."
    );
}
