use darksky::request::{forecast_request, forecast_request_optioned};
use darksky::{Block, DarkskyError, Language, Options, Unit};

const TOKEN: &str = "0123456789abcdef0123456789abcdef";

fn text(x: f64) -> String {
    x.to_string()
}

#[test]
fn test_get_forecast() {
    let places = [(37.8267, -122.423), (39.9042, 166.4074), (19.2465, -99.1013)];
    let expected = [
        "https://api.darksky.net/forecast/0123456789abcdef0123456789abcdef/37.8267,-122.423?units=auto",
        "https://api.darksky.net/forecast/0123456789abcdef0123456789abcdef/39.9042,166.4074?units=auto",
        "https://api.darksky.net/forecast/0123456789abcdef0123456789abcdef/19.2465,-99.1013?units=auto",
    ];
    for ((latitude, longitude), url) in places.iter().zip(expected) {
        let request = forecast_request(TOKEN, &text(*latitude), &text(*longitude)).unwrap();
        assert_eq!(request.url, url);
        assert_eq!(request.uri.to_string(), url);
    }
}

#[test]
fn test_get_forecast_with_options() {
    let options = Options::default()
        .exclude(vec![Block::Currently, Block::Daily])
        .extend_hourly()
        .language(Language::Es)
        .unit(Unit::Si);
    let request =
        forecast_request_optioned(TOKEN, &text(19.2465), &text(-99.1013), None, options).unwrap();
    assert_eq!(
        request.url,
        "https://api.darksky.net/forecast/0123456789abcdef0123456789abcdef/19.2465,-99.1013?exclude=currently,daily&extend=hourly&lang=es&units=si&"
    );
    assert_eq!(
        request.uri.query(),
        Some("exclude=currently,daily&extend=hourly&lang=es&units=si&")
    );
}

#[test]
fn test_time_machine() {
    let options = Options::default()
        .exclude(vec![Block::Currently, Block::Daily])
        .extend_hourly()
        .language(Language::Es)
        .unit(Unit::Si);
    let time = 1_450_000_000.to_string();
    let request =
        forecast_request_optioned(TOKEN, &text(19.2465), &text(-99.1013), Some(time), options);
    match request {
        Ok(request) => {
            assert_eq!(
                request.uri.path(),
                "/forecast/0123456789abcdef0123456789abcdef/19.2465,-99.1013,1450000000"
            );
            assert_eq!(
                request.url,
                "https://api.darksky.net/forecast/0123456789abcdef0123456789abcdef/19.2465,-99.1013,1450000000?exclude=currently,daily&extend=hourly&lang=es&units=si&"
            );
        }
        Err(why) => panic!("{:?}", why),
    }
}

#[test]
fn a_transport_failure_carries_the_account_of_the_client() {
    let error = DarkskyError::Transport("connection reset".to_string());
    match error {
        DarkskyError::Transport(why) => assert_eq!(why, "connection reset"),
        other => panic!("{:?}", other),
    }
}
