use weather_underground::Error;
use weather_underground::codec::{decode_current_body, decode_history_body, decode_observation};
use weather_underground::encode::{encode_observation, encode_response};
use weather_underground::json::{parse_json, JsonValue};
use weather_underground::num::{parse_u64, u64_to_string};
use weather_underground::obs::{Observation, ObservationResponse, ObservationValue};

fn one_observation_body() -> &'static str {
    "{\"observations\":[{\"country\":\"FR\",\"epoch\":1614697343,\"humidity\":96,\"lat\":48.8,\"lon\":2.3,\"imperial\":null,\"metric\":{\"dewpt\":10.2,\"elev\":null,\"heatIndex\":null,\"precipRate\":0.0,\"precipTotal\":1.5,\"pressure\":1017.03,\"temp\":10.8,\"windChill\":10.8,\"windGust\":null,\"windSpeed\":1.4},\"neighborhood\":\"Montmartre\",\"obsTimeLocal\":\"2021-03-02 15:42:23\",\"obsTimeUtc\":\"2021-03-02T14:42:23Z\",\"solarRadiation\":43.4,\"uv\":1.0,\"winddir\":260}],\"metadata\":{\"units\":\"m\"},\"success\":true}"
}

#[test]
fn parsing_observations() {
    let result = decode_current_body(one_observation_body());
    assert!(result.is_ok());
    let result = result.unwrap();
    assert!(result.observations.is_some());
    let result = result.observations.unwrap();
    assert_eq!(result.len(), 1);
}

#[test]
fn decoded_observation_prefers_metric_values() {
    let response = decode_current_body(one_observation_body()).unwrap();
    let observations = response.observations.unwrap();
    let obs = &observations[0];
    assert_eq!(obs.country.as_deref(), Some("FR"));
    assert_eq!(obs.epoch, 1614697343);
    assert_eq!(obs.lat, "48.8");
    assert_eq!(obs.lon, "2.3");
    assert_eq!(obs.humidity.as_deref(), Some("96"));
    assert_eq!(obs.winddir.as_deref(), Some("260"));
    assert!(obs.imperial.is_none());
    // The metric bag is populated and `values` hands it back.
    let values = obs.values().expect("metric values expected");
    assert_eq!(values.temp.as_deref(), Some("10.8"));
    assert_eq!(values.dewpt.as_deref(), Some("10.2"));
    assert_eq!(values.pressure.as_deref(), Some("1017.03"));
    assert!(values.elev.is_none());
    assert!(values.wind_gust.is_none());
    assert_eq!(response.success, Some(true));
}

#[test]
fn decode_rejects_bad_json_with_payload_invalid() {
    let result = decode_current_body("{not json");
    assert!(matches!(result, Err(Error::PayloadInvalid(_))));
}

#[test]
fn decode_rejects_wrong_field_shape() {
    // epoch as a string is a schema mismatch.
    let body = "{\"observations\":[{\"country\":\"FR\",\"epoch\":\"soon\",\"lat\":1.0,\"lon\":2.0,\"obsTimeLocal\":\"a\",\"obsTimeUtc\":\"b\"}]}";
    assert!(matches!(decode_current_body(body), Err(Error::PayloadInvalid(_))));
}

#[test]
fn decode_accepts_missing_optional_fields() {
    let body = "{\"observations\":[{\"epoch\":7,\"lat\":1.5,\"lon\":-2.25,\"obsTimeLocal\":\"a\",\"obsTimeUtc\":\"b\"}]}";
    let response = decode_current_body(body).unwrap();
    let observations = response.observations.unwrap();
    let obs = &observations[0];
    assert!(obs.country.is_none());
    assert!(obs.humidity.is_none());
    assert!(obs.values().is_none());
    assert!(response.success.is_none());
    assert!(response.errors.is_none());
}

#[test]
fn decode_history_requires_the_observation_list() {
    let body = "{\"observations\":[{\"epoch\":7,\"lat\":1.0,\"lon\":2.0,\"obsTimeLocal\":\"a\",\"obsTimeUtc\":\"b\"}]}";
    let history = decode_history_body(body).unwrap();
    assert_eq!(history.observations.len(), 1);
    assert!(matches!(
        decode_history_body("{\"success\":true}"),
        Err(Error::PayloadInvalid(_))
    ));
}

fn sample_observation() -> Observation {
    Observation {
        country: Some("DE".to_string()),
        epoch: 1700000000,
        humidity: Some("55".to_string()),
        lat: "52.5".to_string(),
        lon: "13.4".to_string(),
        imperial: None,
        metric: Some(ObservationValue {
            dewpt: Some("4.5".to_string()),
            elev: None,
            heat_index: None,
            precip_rate: Some("0.0".to_string()),
            precip_total: None,
            pressure: Some("1013.2".to_string()),
            temp: Some("9.5".to_string()),
            wind_chill: None,
            wind_gust: None,
            wind_speed: Some("2.2".to_string()),
        }),
        neighborhood: None,
        obs_time_local: "2023-11-14 23:13:20".to_string(),
        obs_time_utc: "2023-11-14T22:13:20Z".to_string(),
        solar_radiation: None,
        uv: None,
        winddir: Some("180".to_string()),
    }
}

#[test]
fn observation_round_trip_keeps_every_field() {
    let reading = sample_observation();
    let encoded = encode_observation(&reading);
    let decoded = decode_observation(&encoded).unwrap();
    assert_eq!(decoded, reading);
}

#[test]
fn response_round_trip_keeps_metadata() {
    let response = ObservationResponse {
        errors: None,
        observations: Some(vec![sample_observation()]),
        metadata: Some(JsonValue::Obj(vec![(
            "units".to_string(),
            JsonValue::Str("m".to_string()),
        )])),
        success: Some(true),
    };
    let encoded = encode_response(&response);
    let decoded = weather_underground::codec::decode_response(&encoded).unwrap();
    assert_eq!(decoded, response);
}

#[test]
fn parse_json_builds_structured_values() {
    // A fixed text must come back as the structured value, not as text.
    let v = parse_json("{\"a\":[1,true,null],\"b\":\"x\"}").unwrap();
    let expected = JsonValue::Obj(vec![
        (
            "a".to_string(),
            JsonValue::Arr(vec![
                JsonValue::Num("1".to_string()),
                JsonValue::Bool(true),
                JsonValue::Null,
            ]),
        ),
        ("b".to_string(), JsonValue::Str("x".to_string())),
    ]);
    assert_eq!(v, expected);
    assert!(parse_json("]oops").is_err());
}

#[test]
fn digit_strings_print_and_parse_exactly() {
    assert_eq!(u64_to_string(0), "0");
    assert_eq!(u64_to_string(907), "907");
    assert_eq!(u64_to_string(u64::MAX), "18446744073709551615");
    assert_eq!(parse_u64("0"), Some(0));
    assert_eq!(parse_u64("907"), Some(907));
    assert_eq!(parse_u64("18446744073709551615"), Some(u64::MAX));
    assert_eq!(parse_u64("18446744073709551616"), None);
    assert_eq!(parse_u64(""), None);
    assert_eq!(parse_u64("12a"), None);
    assert_eq!(parse_u64("-4"), None);
}
