use weather_underground::Error;
use weather_underground::ParseUnitError;
use weather_underground::client::{build_request_url, interpret_response, ClientOpts};
use weather_underground::query::{Date, Format, History, ObservationArgs, Precision, Unit};

#[test]
fn default_query_has_every_parameter_once() {
    let args = ObservationArgs::default();
    let query = args.build_query("6532d6454b8aa370768e63d6ba5a832e", "IPARIS18");
    assert_eq!(
        query,
        "observations/current?apiKey=6532d6454b8aa370768e63d6ba5a832e&stationId=IPARIS18&units=m&format=json&numericPrecision=decimal"
    );
}

#[test]
fn integer_precision_drops_the_precision_parameter() {
    let args = ObservationArgs {
        precision: Precision::Integer,
        ..ObservationArgs::default()
    };
    let query = args.build_query("k", "s");
    assert_eq!(query, "observations/current?apiKey=k&stationId=s&units=m&format=json");
}

#[test]
fn history_query_takes_the_history_path_and_a_date() {
    let args = ObservationArgs {
        format: Format::Json,
        unit: Unit::Imperial,
        history: History::Hourly,
        precision: Precision::Integer,
        date: Some(Date { year: 2021, month: 3, day: 5 }),
    };
    let query = args.build_query("k", "s");
    assert_eq!(query, "history/hourly?apiKey=k&stationId=s&units=e&format=json&date=20210305");
}

#[test]
fn date_is_zero_padded() {
    let d = Date { year: 987, month: 12, day: 1 };
    assert_eq!(d.to_string(), "09871201");
}

#[test]
fn request_url_carries_the_fixed_host() {
    let args = ObservationArgs::default();
    let url = build_request_url("k", "s", &args);
    assert_eq!(
        url,
        "https://api.weather.com/v2/pws/observations/current?apiKey=k&stationId=s&units=m&format=json&numericPrecision=decimal"
    );
}

#[test]
fn unit_flags_parse_and_print() {
    assert_eq!(Unit::parse("m").unwrap(), Unit::Metric);
    assert_eq!(Unit::parse("e").unwrap(), Unit::Imperial);
    assert!(Unit::parse("metric").is_err());
    assert!(Unit::parse("").is_err());
    assert_eq!(Unit::Metric.as_str(), "m");
    assert_eq!(Unit::Imperial.as_str(), "e");
    assert_eq!(History::All.as_str(), "all");
    assert_eq!(Format::Json.as_str(), "json");
    assert_eq!(Precision::Decimal.as_str(), "decimal");
}

#[test]
fn parse_unit_error_describes_itself() {
    assert_eq!(ParseUnitError.to_string(), "Invalid unit value");
}

#[test]
fn client_opts_default_timeout() {
    let opts = ClientOpts::default();
    assert_eq!(opts.timeout_ms, 2000);
}

#[test]
fn status_204_is_a_valid_empty_answer() {
    let r = interpret_response(204, "");
    assert!(matches!(r, Ok(None)));
}

#[test]
fn status_other_than_success_is_an_http_error() {
    match interpret_response(503, "irrelevant") {
        Err(Error::HttpStatus(code)) => assert_eq!(code, 503),
        other => panic!("unexpected: {:?}", other),
    }
}

#[test]
fn status_200_decodes_the_body() {
    let r = interpret_response(200, "{\"success\":false}").unwrap();
    let response = r.unwrap();
    assert_eq!(response.success, Some(false));
    assert!(matches!(
        interpret_response(200, "no json"),
        Err(Error::PayloadInvalid(_))
    ));
}
