use osdf_client::error::MyError;
use osdf_client::pelican::handle_link_header;
use osdf_client::pelican::handle_namespace_header;
use osdf_client::pelican::DirectorCache;
use osdf_client::pelican::DirectorResponse;
use osdf_client::pelican::PelicanInfo;
use osdf_client::pelican::ResolveAction;

#[test]
fn test_handle_link_header() {
    let urls = handle_link_header("<http://a>; rel=\"x\", <http://b>").unwrap();
    assert_eq!(urls, vec!["http://a", "http://b"]);
}

#[test]
fn test_handle_link_header_single() {
    let urls = handle_link_header("<http://origin>").unwrap();
    assert_eq!(urls, vec!["http://origin"]);
}

#[test]
fn test_handle_link_header_missing_open() {
    match handle_link_header("http://a>, <http://b>") {
        Err(MyError::PelicanError(m)) => assert_eq!(m, "Error parsing link header"),
        _ => panic!("expected a parse error"),
    }
}

#[test]
fn test_handle_link_header_missing_close() {
    match handle_link_header("<http://a>, <http://b") {
        Err(MyError::PelicanError(m)) => assert_eq!(m, "Error parsing link header"),
        _ => panic!("expected a parse error"),
    }
}

#[test]
fn test_handle_link_header_empty() {
    match handle_link_header("") {
        Err(MyError::PelicanError(m)) => assert_eq!(m, "Error parsing link header"),
        _ => panic!("expected a parse error"),
    }
}

#[test]
fn test_handle_namespace_header() {
    let ns = handle_namespace_header("namespace=/ns/path,foo=bar").unwrap();
    assert_eq!(ns, "/ns/path");
}

#[test]
fn test_handle_namespace_header_missing_comma() {
    match handle_namespace_header("namespace=/ns/path") {
        Err(MyError::PelicanError(m)) => {
            assert_eq!(m, "Error parsing x-pelican-namespace header")
        }
        _ => panic!("expected a parse error"),
    }
}

#[test]
fn test_handle_namespace_header_missing_equals() {
    match handle_namespace_header("nonsense,foo=bar") {
        Err(MyError::PelicanError(m)) => {
            assert_eq!(m, "Error parsing x-pelican-namespace header")
        }
        _ => panic!("expected a parse error"),
    }
}

#[test]
fn test_pelican_from_url() {
    let response = DirectorResponse {
        link: Some("<http://origin>".to_string()),
        namespace: Some("namespace=/icecube/wipac,foo=bar".to_string()),
    };
    let info = PelicanInfo::from_url("osdf:///icecube/wipac/", &response).unwrap();
    assert_eq!(info.get_osdf_prefix(), "osdf:///icecube/wipac");
    info.choose_origin().unwrap();
}

#[test]
fn test_from_url_not_federation() {
    let response = DirectorResponse {
        link: Some("<http://origin>".to_string()),
        namespace: Some("namespace=/ns,foo=bar".to_string()),
    };
    match PelicanInfo::from_url("http://plain/url", &response) {
        Err(MyError::PelicanError(m)) => assert_eq!(m, "url is not an OSDF url"),
        _ => panic!("expected a pelican error"),
    }
}

#[test]
fn test_from_url_missing_link_header() {
    let response = DirectorResponse {
        link: None,
        namespace: Some("namespace=/ns,foo=bar".to_string()),
    };
    match PelicanInfo::from_url("osdf:///ns/file", &response) {
        Err(MyError::PelicanError(m)) => {
            assert_eq!(m, "No link header when locating origins")
        }
        _ => panic!("expected a pelican error"),
    }
}

#[test]
fn test_from_url_missing_namespace_header() {
    let response = DirectorResponse {
        link: Some("<http://origin>".to_string()),
        namespace: None,
    };
    match PelicanInfo::from_url("osdf:///ns/file", &response) {
        Err(MyError::PelicanError(m)) => {
            assert_eq!(m, "No x-pelican-namespace header when locating origins")
        }
        _ => panic!("expected a pelican error"),
    }
}

#[test]
fn test_choose_origin_returns_an_origin() {
    let info = PelicanInfo {
        origins: vec!["http://only".to_string()],
        osdf_prefix: "osdf://ns".to_string(),
    };
    assert_eq!(info.choose_origin().unwrap(), "http://only");
}

#[test]
fn test_choose_origin_empty() {
    let info = PelicanInfo {
        origins: vec![],
        osdf_prefix: "osdf://ns".to_string(),
    };
    match info.choose_origin() {
        Err(MyError::PelicanError(m)) => assert_eq!(m, "No origins available"),
        _ => panic!("expected a pelican error"),
    }
}

#[test]
fn test_resolve_step_fetch_then_done() {
    let mut cache = DirectorCache::new();
    let url = "osdf://ns/read/scope/file.bin";

    let fetch_url = match cache.resolve_step(url).unwrap() {
        ResolveAction::Fetch(u) => u,
        _ => panic!("expected a fetch request"),
    };
    assert_eq!(
        fetch_url,
        "https://osdf-director.osg-htc.org/api/v1.0/director/originns/read/scope/file.bin"
    );

    cache
        .record(
            "ns/read/scope/file.bin".to_string(),
            200,
            Some("<http://origin>".to_string()),
            Some("namespace=ns,foo=bar".to_string()),
            "",
        )
        .unwrap();

    let info = match cache.resolve_step(url).unwrap() {
        ResolveAction::Done(i) => i,
        _ => panic!("expected a finished resolution"),
    };
    assert_eq!(info.get_osdf_prefix(), "osdf://ns");
    assert_eq!(info.origins, vec!["http://origin".to_string()]);
}

#[test]
fn test_discovery_cache_single_fetch() {
    let mut cache = DirectorCache::new();
    let url = "osdf://ns/file";
    let mut fetches: u32 = 0;

    for _ in 0..2 {
        loop {
            match cache.resolve_step(url).unwrap() {
                ResolveAction::Fetch(_) => {
                    fetches += 1;
                    cache
                        .record(
                            "ns/file".to_string(),
                            200,
                            Some("<http://origin>".to_string()),
                            Some("namespace=ns,foo=bar".to_string()),
                            "",
                        )
                        .unwrap();
                }
                ResolveAction::Done(_) => break,
            }
        }
    }

    assert_eq!(fetches, 1);
}

#[test]
fn test_record_refusal() {
    let mut cache = DirectorCache::new();
    match cache.record("ns/file".to_string(), 404, None, None, "not found") {
        Err(MyError::PelicanError(m)) => {
            assert_eq!(m, "Error finding Pelican Origin: not found")
        }
        _ => panic!("expected a pelican error"),
    }
    // a refused answer is not cached
    match cache.resolve_step("osdf://ns/file").unwrap() {
        ResolveAction::Fetch(_) => {}
        _ => panic!("expected another fetch request"),
    }
}
