use darksky::utils::{uri, uri_optioned};
use darksky::{Block, Language, Options, Params, Unit};

#[test]
fn uri_without_options_asks_for_auto_units() {
    let lat = (-7.3f64).to_string();
    let long = 8.17f64.to_string();
    let url = uri("abc", &lat, &long);
    assert_eq!(url, "https://api.darksky.net/forecast/abc/-7.3,8.17?units=auto");
}

#[test]
fn uri_optioned_lists_the_excluded_block() {
    let options = Options::default().exclude(vec![Block::Hourly]).into_inner();
    let url = uri_optioned("def", "-4.13", "14.32", None, options).unwrap();
    assert_eq!(url, "https://api.darksky.net/forecast/def/-4.13,14.32?exclude=hourly&");
}

#[test]
fn exclude_of_nothing_sets_an_empty_value() {
    let options = Options::default().exclude(vec![]);
    assert_eq!(options.get_ref().get("exclude"), Some(""));
    let url = uri_optioned("t", "1", "2", None, options.into_inner()).unwrap();
    assert_eq!(url, "https://api.darksky.net/forecast/t/1,2?exclude=&");
}

#[test]
fn exclude_joins_tokens_with_commas() {
    let options = Options::default().exclude(vec![Block::Hourly, Block::Daily]);
    assert_eq!(options.get_ref().get("exclude"), Some("hourly,daily"));
    let url = uri_optioned("t", "1", "2", None, options.into_inner()).unwrap();
    assert_eq!(url, "https://api.darksky.net/forecast/t/1,2?exclude=hourly,daily&");
}

#[test]
fn time_goes_behind_the_coordinates() {
    let options = Options::default().unit(Unit::Si).into_inner();
    let url = uri_optioned("t", "19.2465", "-99.1013", Some("1450000000".to_string()), options)
        .unwrap();
    assert_eq!(
        url,
        "https://api.darksky.net/forecast/t/19.2465,-99.1013,1450000000?units=si&"
    );
}

#[test]
fn parameters_keep_their_order_and_last_write_wins() {
    let options = Options::default()
        .exclude(vec![Block::Currently, Block::Daily])
        .extend_hourly()
        .language(Language::Es)
        .unit(Unit::Si)
        .language(Language::ZhTw);
    assert_eq!(options.get_ref().len(), 4);
    let url = uri_optioned("k", "0", "0", None, options.into_inner()).unwrap();
    assert_eq!(
        url,
        "https://api.darksky.net/forecast/k/0,0?exclude=currently,daily&extend=hourly&lang=zh-tw&units=si&"
    );
}

#[test]
fn no_parameters_given_explicitly_leaves_the_query_empty() {
    let url = darksky::utils::format("http://h", "k", "1", "2", None, Some(&Params::new())).unwrap();
    assert_eq!(url, "http://h/forecast/k/1,2?");
    let url = darksky::utils::format("http://h", "k", "1", "2", Some("3"), None).unwrap();
    assert_eq!(url, "http://h/forecast/k/1,2,3?units=auto");
}

#[test]
fn raw_parameters_can_be_added() {
    let mut options = Options::default().extend_hourly();
    let inner = options.get_mut();
    inner.insert("foo", "bar".to_owned());
    assert_eq!(inner.len(), 2);
    assert!(inner.contains_key("foo"));
    assert!(!inner.contains_key("bar"));
    assert_eq!(options.get_ref().get("foo"), Some("bar"));
    assert_eq!(options.get_ref().name_at(0), "extend");
    assert_eq!(options.get_ref().value_at(1), "bar");
    assert!(!options.get_ref().is_empty());
}

#[test]
fn every_wire_token_is_as_the_service_spells_it() {
    let blocks = [
        (Block::Currently, "currently"), (Block::Daily, "daily"), (Block::Flags, "flags"),
        (Block::Hourly, "hourly"), (Block::Minutely, "minutely"),
    ];
    for (block, token) in blocks {
        assert_eq!(block.name(), token);
    }
    let units = [(Unit::Auto, "auto"), (Unit::Ca, "ca"), (Unit::Si, "si"), (Unit::Uk2, "uk2"), (Unit::Us, "us")];
    for (unit, token) in units {
        assert_eq!(unit.name(), token);
        let url = uri_optioned("k", "1", "2", None, Options::default().unit(unit).into_inner()).unwrap();
        assert_eq!(url, format!("https://api.darksky.net/forecast/k/1,2?units={}&", token));
    }
    let languages = [
        (Language::Ar, "ar"), (Language::Az, "az"), (Language::Be, "be"), (Language::Bs, "bs"),
        (Language::Cs, "cs"), (Language::De, "de"), (Language::El, "el"), (Language::En, "en"),
        (Language::Es, "es"), (Language::Fr, "fr"), (Language::Hr, "hr"), (Language::Hu, "hu"),
        (Language::Id, "id"), (Language::It, "it"), (Language::Is, "is"), (Language::Kw, "kw"),
        (Language::Nb, "nb"), (Language::Nl, "nl"), (Language::Pl, "pl"), (Language::Pt, "pt"),
        (Language::Ru, "ru"), (Language::Sk, "sk"), (Language::Sr, "sr"), (Language::Sv, "sv"),
        (Language::Tet, "tet"), (Language::Tr, "tr"), (Language::Uk, "uk"),
        (Language::XPigLatin, "x-pig-latin"), (Language::Zh, "zh"), (Language::ZhTw, "zh-tw"),
    ];
    for (language, token) in languages {
        assert_eq!(language.name(), token);
        assert_eq!(Options::default().language(language).get_ref().get("lang"), Some(token));
    }
}

#[test]
fn options_can_be_copied_and_go_on_apart() {
    let first = Options::default().unit(Unit::Us);
    let second = first.clone().unit(Unit::Si).extend_hourly();
    assert_eq!(first.get_ref().get("units"), Some("us"));
    assert_eq!(first.get_ref().len(), 1);
    assert_eq!(second.get_ref().get("units"), Some("si"));
    assert_eq!(second.get_ref().get("extend"), Some("hourly"));
    assert_eq!(second.get_ref().get("lang"), None);
    let params = second.into_inner();
    let copy = params.clone();
    assert_eq!(copy.len(), 2);
    assert_eq!(copy.name_at(1), "extend");
}

#[test]
fn an_empty_query_has_no_group() {
    let options = Options::default();
    assert!(options.get_ref().is_empty());
    let url = uri_optioned("k", "1", "2", None, options.into_inner()).unwrap();
    assert_eq!(url, "https://api.darksky.net/forecast/k/1,2?");
    assert_eq!(url.matches('&').count(), 0);
    let three = Options::default().extend_hourly().unit(Unit::Auto).language(Language::En);
    let url = uri_optioned("k", "1", "2", None, three.into_inner()).unwrap();
    assert_eq!(url.matches('&').count(), 3);
    assert!(url.ends_with("units=auto&lang=en&"));
}
