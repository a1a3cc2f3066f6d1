use darksky::request::{checked, forecast_request, forecast_request_optioned, request_for};
use darksky::{Block, DarkskyError, Options, Unit};

#[test]
fn a_plain_request_is_for_the_plain_url() {
    let request = forecast_request("abc", "-7.3", "8.17").unwrap();
    assert_eq!(request.url, "https://api.darksky.net/forecast/abc/-7.3,8.17?units=auto");
    assert_eq!(request.uri.to_string(), request.url);
    assert_eq!(request.uri.host(), Some("api.darksky.net"));
    assert_eq!(request.uri.path(), "/forecast/abc/-7.3,8.17");
    assert_eq!(request.uri.query(), Some("units=auto"));
}

#[test]
fn a_request_with_options_lists_them() {
    let options = Options::default().exclude(vec![Block::Minutely]).extend_hourly().unit(Unit::Ca);
    let request =
        forecast_request_optioned("k", "19.2465", "-99.1013", Some("1450000000".to_string()), options)
            .unwrap();
    assert_eq!(
        request.url,
        "https://api.darksky.net/forecast/k/19.2465,-99.1013,1450000000?exclude=minutely&extend=hourly&units=ca&"
    );
    assert_eq!(request.uri.query(), Some("exclude=minutely&extend=hourly&units=ca&"));
}

#[test]
fn a_url_that_is_no_uri_is_refused() {
    match forecast_request("a b", "1", "2") {
        Err(DarkskyError::Uri(_)) => {}
        other => panic!("not a URI error: {:?}", other.map(|r| r.url)),
    }
    match request_for(String::new()) {
        Err(DarkskyError::Uri(_)) => {}
        other => panic!("not a URI error: {:?}", other.map(|r| r.url)),
    }
    let mut options = Options::default();
    options.get_mut().insert("note", "two words".to_string());
    match forecast_request_optioned("k", "1", "2", None, options) {
        Err(DarkskyError::Uri(_)) => {}
        other => panic!("not a URI error: {:?}", other.map(|r| r.url)),
    }
}

#[test]
fn the_outcome_of_reading_decides() {
    let good: Result<http::Uri, http::uri::InvalidUri> = "http://h/p".parse();
    let request = checked("http://h/p".to_string(), good).unwrap();
    assert_eq!(request.url, "http://h/p");
    assert_eq!(request.uri.path(), "/p");
    let bad: Result<http::Uri, http::uri::InvalidUri> = "http://h/a b".parse();
    assert!(matches!(checked("x".to_string(), bad), Err(DarkskyError::Uri(_))));
}

#[test]
fn outside_errors_become_library_errors() {
    assert!(matches!(DarkskyError::from(std::fmt::Error), DarkskyError::Fmt(_)));
    let io = std::io::Error::new(std::io::ErrorKind::Other, "closed");
    assert!(matches!(DarkskyError::from(io), DarkskyError::Io(_)));
    let json = serde_json::from_str::<serde_json::Value>("{").unwrap_err();
    assert!(matches!(DarkskyError::from(json), DarkskyError::Json(_)));
    let uri = "".parse::<http::Uri>().unwrap_err();
    assert!(matches!(DarkskyError::from(uri), DarkskyError::Uri(_)));
}
