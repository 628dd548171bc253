use weather_underground::config::split_stations;
use weather_underground::poll::{iterate_stations, process_station, Error, FetchOutcome,
    StationOutcome};
use weather_underground::publish::metric_record;
use weather_underground::query::Unit;

fn good_body() -> String {
    "{\"observations\":[{\"epoch\":7,\"lat\":1.0,\"lon\":2.0,\"obsTimeLocal\":\"a\",\"obsTimeUtc\":\"b\"}]}".to_string()
}

#[test]
fn retry_reports_success_after_k_failures() {
    // Two transient failures, then a decodable body: success after the
    // third attempt, and no further fetch is consumed.
    let events = vec![
        FetchOutcome::Failed,
        FetchOutcome::Failed,
        FetchOutcome::Body(good_body()),
        FetchOutcome::Body(good_body()),
    ];
    let (outcome, attempts) = process_station(&events, 10);
    assert!(matches!(outcome, StationOutcome::Published(_)));
    assert_eq!(attempts, 3);
}

#[test]
fn no_result_ends_the_loop_without_publishing() {
    let events = vec![
        FetchOutcome::NoResult,
        FetchOutcome::Body(good_body()),
        FetchOutcome::Failed,
    ];
    let (outcome, attempts) = process_station(&events, 10);
    assert_eq!(outcome, StationOutcome::NoData);
    assert_eq!(attempts, 1);
}

#[test]
fn bad_payload_stops_the_station_without_retrying() {
    let events = vec![
        FetchOutcome::Body("not json".to_string()),
        FetchOutcome::Body(good_body()),
    ];
    let (outcome, attempts) = process_station(&events, 10);
    assert_eq!(outcome, StationOutcome::BadPayload);
    assert_eq!(attempts, 1);
}

#[test]
fn budget_exhaustion_is_reported() {
    let events: Vec<FetchOutcome> = (0..10).map(|_| FetchOutcome::Failed).collect();
    let (outcome, attempts) = process_station(&events, 10);
    assert_eq!(outcome, StationOutcome::Exhausted);
    assert_eq!(attempts, 10);
}

#[test]
fn one_bad_station_aborts_the_iteration_after_the_good_one_published() {
    let stations = vec!["A".to_string(), "B".to_string()];
    let transcripts = vec![
        vec![FetchOutcome::Body(good_body())],
        (0..10).map(|_| FetchOutcome::Failed).collect(),
    ];
    let (published, result) = iterate_stations(&stations, &transcripts, 10);
    assert!(matches!(result, Err(Error::TooManyRetry)));
    assert_eq!(published.len(), 1);
    assert_eq!(published[0].0, "A");
    assert!(published[0].1.observations.is_some());
}

#[test]
fn iteration_without_exhaustion_continues_past_quiet_stations() {
    let stations = vec!["A".to_string(), "B".to_string(), "C".to_string()];
    let transcripts = vec![
        vec![FetchOutcome::NoResult],
        vec![FetchOutcome::Failed, FetchOutcome::Body(good_body())],
        vec![FetchOutcome::Body("broken".to_string())],
    ];
    let (published, result) = iterate_stations(&stations, &transcripts, 10);
    assert!(result.is_ok());
    assert_eq!(published.len(), 1);
    assert_eq!(published[0].0, "B");
}

#[test]
fn station_lists_split_on_commas() {
    let parts = split_stations("IPARIS18,KWASHING12,X");
    assert_eq!(parts, vec!["IPARIS18", "KWASHING12", "X"]);
    assert_eq!(split_stations("solo"), vec!["solo"]);
    assert_eq!(split_stations(""), vec![""]);
    assert_eq!(split_stations("a,,b"), vec!["a", "", "b"]);
}

#[test]
fn metric_record_collects_present_fields_only() {
    let body = "{\"observations\":[{\"country\":\"FR\",\"epoch\":9,\"humidity\":96,\"lat\":48.8,\"lon\":2.3,\"metric\":{\"temp\":10.8,\"windSpeed\":1.4},\"obsTimeLocal\":\"a\",\"obsTimeUtc\":\"b\",\"winddir\":260}]}";
    let response = weather_underground::codec::decode_current_body(body).unwrap();
    let observations = response.observations.unwrap();
    let record = metric_record(Unit::Metric, "IPARIS18", &observations[0]);
    assert_eq!(record.name, "weather-underground_IPARIS18");
    assert_eq!(
        record.tags,
        vec![
            ("unit".to_string(), "m".to_string()),
            ("country".to_string(), "FR".to_string()),
            ("lat".to_string(), "48.8".to_string()),
            ("lng".to_string(), "2.3".to_string()),
        ]
    );
    assert_eq!(
        record.fields,
        vec![
            ("humidity".to_string(), "96".to_string()),
            ("wind_dir".to_string(), "260".to_string()),
            ("temp".to_string(), "10.8".to_string()),
            ("wind_speed".to_string(), "1.4".to_string()),
        ]
    );
}
