use osdf_client::credentials::Credential;
use osdf_client::credentials::Credentials;
use osdf_client::error::MyError;
use osdf_client::pelican::DirectorCache;
use osdf_client::pelican::PelicanInfo;
use osdf_client::pelican::ResolveAction;
use osdf_client::strings::u16_to_decimal;
use osdf_client::transfer::check_response;
use osdf_client::transfer::Transfer;
use osdf_client::transfer::Verb;

const NOW: u64 = 1_700_000_000_000;
const HOUR: u64 = 3_600_000;

fn test_cred(expires_at: u64) -> Credential {
    Credential {
        access_token: "token".to_string(),
        token_type: "bearer".to_string(),
        expires_in: 3600,
        expires_at,
        scope: vec![
            "storage.read:/read/scope".to_string(),
            "storage.modify:/write/scope".to_string(),
        ],
    }
}

#[test]
fn test_get_origin_url() {
    let transfer = Transfer::new(
        "url://namespace/read/scope/file.bin".to_string(),
        "local.bin".to_string(),
        Verb::Get,
    );
    let info = PelicanInfo {
        origins: vec!["http://origin".to_string()],
        osdf_prefix: "url://namespace".to_string(),
    };

    let ret = transfer.get_origin_url(&info).unwrap();
    assert_eq!(ret, "http://origin/read/scope/file.bin");
}

#[test]
fn test_get_origin_url_extra_slash() {
    let transfer = Transfer::new(
        "url://namespace/read/scope/file.bin".to_string(),
        "local.bin".to_string(),
        Verb::Get,
    );
    let info = PelicanInfo {
        origins: vec!["http://origin/".to_string()],
        osdf_prefix: "url://namespace".to_string(),
    };

    let ret = transfer.get_origin_url(&info).unwrap();
    assert_eq!(ret, "http://origin/read/scope/file.bin");
}

#[test]
fn test_get_origin_url_no_origins() {
    let transfer = Transfer::new(
        "url://namespace/read/scope/file.bin".to_string(),
        "local.bin".to_string(),
        Verb::Get,
    );
    let info = PelicanInfo {
        origins: vec![],
        osdf_prefix: "url://namespace".to_string(),
    };

    match transfer.get_origin_url(&info) {
        Err(MyError::PelicanError(m)) => assert_eq!(m, "No origins available"),
        _ => panic!("expected a pelican error"),
    }
}

#[test]
fn test_u16_to_decimal() {
    assert_eq!(u16_to_decimal(0), "0");
    assert_eq!(u16_to_decimal(7), "7");
    assert_eq!(u16_to_decimal(200), "200");
    assert_eq!(u16_to_decimal(404), "404");
    assert_eq!(u16_to_decimal(65535), "65535");
}

#[test]
fn test_check_response_success_band() {
    assert!(check_response(Verb::Get, 200, "").is_ok());
    assert!(check_response(Verb::Put, 299, "").is_ok());
    assert!(check_response(Verb::Get, 199, "").is_err());
    assert!(check_response(Verb::Put, 300, "").is_err());
}

#[test]
fn test_check_response_failure_message() {
    match check_response(Verb::Get, 404, "nope") {
        Err(MyError::TransferError(m)) => {
            assert_eq!(m, "Error getting file. status 404, body nope")
        }
        _ => panic!("expected a transfer error"),
    }
    match check_response(Verb::Put, 503, "busy") {
        Err(MyError::TransferError(m)) => {
            assert_eq!(m, "Error transferring file. status 503, body busy")
        }
        _ => panic!("expected a transfer error"),
    }
}

#[test]
fn test_transfer_get_flow() {
    // resolve the origin set out of mocked discovery headers
    let mut cache = DirectorCache::new();
    let url = "osdf://ns/read/scope/file.bin";
    match cache.resolve_step(url).unwrap() {
        ResolveAction::Fetch(_) => {
            cache
                .record(
                    "ns/read/scope/file.bin".to_string(),
                    200,
                    Some("<http://origin>".to_string()),
                    Some("namespace=ns,foo=bar".to_string()),
                    "",
                )
                .unwrap();
        }
        _ => panic!("expected a fetch request"),
    }
    let info = match cache.resolve_step(url).unwrap() {
        ResolveAction::Done(i) => i,
        _ => panic!("expected a finished resolution"),
    };

    let creds = Credentials::new(vec![test_cred(NOW + HOUR)]);
    let transfer = Transfer::new(url.to_string(), "local.bin".to_string(), Verb::Get);

    let plan = transfer.prepare(&creds, &info, NOW).unwrap();
    assert_eq!(plan.url, "http://origin/read/scope/file.bin");
    assert_eq!(plan.auth_header, "Bearer token");
    assert!(matches!(plan.verb, Verb::Get));
    assert_eq!(plan.filename, "local.bin");

    // a mocked origin answers 200 with the body: the transfer succeeds and
    // only then may the body "somebodydata" be written to the local file
    assert!(check_response(plan.verb, 200, "somebodydata").is_ok());
}

#[test]
fn test_transfer_put_flow() {
    let mut cache = DirectorCache::new();
    let url = "osdf://ns/write/scope/file.bin";
    match cache.resolve_step(url).unwrap() {
        ResolveAction::Fetch(_) => {
            cache
                .record(
                    "ns/write/scope/file.bin".to_string(),
                    200,
                    Some("<http://origin>".to_string()),
                    Some("namespace=ns,foo=bar".to_string()),
                    "",
                )
                .unwrap();
        }
        _ => panic!("expected a fetch request"),
    }
    let info = match cache.resolve_step(url).unwrap() {
        ResolveAction::Done(i) => i,
        _ => panic!("expected a finished resolution"),
    };

    let creds = Credentials::new(vec![test_cred(NOW + HOUR)]);
    let transfer = Transfer::new(url.to_string(), "local.bin".to_string(), Verb::Put);

    // the local file holds "somebodydata"; the plan carries everything the
    // sender needs for the authenticated PUT of that body
    let plan = transfer.prepare(&creds, &info, NOW).unwrap();
    assert_eq!(plan.url, "http://origin/write/scope/file.bin");
    assert_eq!(plan.auth_header, "Bearer token");
    assert!(matches!(plan.verb, Verb::Put));

    assert!(check_response(plan.verb, 200, "").is_ok());
}

#[test]
fn test_transfer_mismatched_verb_fails() {
    let cred = Credential {
        access_token: "token".to_string(),
        token_type: "bearer".to_string(),
        expires_in: 3600,
        expires_at: NOW + HOUR,
        scope: vec!["storage.read:/read/scope".to_string()],
    };
    let creds = Credentials::new(vec![cred]);
    let info = PelicanInfo {
        origins: vec!["http://origin".to_string()],
        osdf_prefix: "osdf://ns".to_string(),
    };

    let get = Transfer::new(
        "osdf://ns/read/scope/file.bin".to_string(),
        "local.bin".to_string(),
        Verb::Get,
    );
    assert!(get.prepare(&creds, &info, NOW).is_ok());

    let put = Transfer::new(
        "osdf://ns/read/scope/file.bin".to_string(),
        "local.bin".to_string(),
        Verb::Put,
    );
    assert!(put.prepare(&creds, &info, NOW).is_err());
}
