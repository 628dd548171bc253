//! Decoding JSON payloads into typed observation structures, and encoding
//! them back. Required fields must be there with the right shape;
//! optional fields decode to absent when missing or null, and to an error
//! when present with the wrong shape.

use vstd::prelude::*;
use vstd::string::StringExecFns;
use crate::json::{JsonV, JsonValue, json_of_text, jv_fields, jv_seq, lookup, parse_json,
    spec_lookup, json_clone};
use crate::num::{spec_parse_u64, parse_u64};
use crate::obs::{Observation, ObservationError, ObservationErrorV, ObservationResponse,
    ObservationResponseV, ObservationV, ObservationValue, ObservationValueV, HistoryResponse,
    HistoryResponseV, view_opt, view_opt_value};
use crate::Error;

verus! {

/// An optional numeric field: absent when missing or null, its decimal
/// text when a number, undecodable otherwise.
pub open spec fn spec_opt_num(fs: Seq<(Seq<char>, JsonV)>, key: Seq<char>) -> Option<
    Option<Seq<char>>,
> {
    match spec_lookup(fs, key) {
        None => Some(None),
        Some(JsonV::Null) => Some(None),
        Some(JsonV::Num(s)) => Some(Some(s)),
        Some(_) => None,
    }
}

/// An optional text field: absent when missing or null.
pub open spec fn spec_opt_str(fs: Seq<(Seq<char>, JsonV)>, key: Seq<char>) -> Option<
    Option<Seq<char>>,
> {
    match spec_lookup(fs, key) {
        None => Some(None),
        Some(JsonV::Null) => Some(None),
        Some(JsonV::Str(s)) => Some(Some(s)),
        Some(_) => None,
    }
}

/// An optional boolean field: absent when missing or null.
pub open spec fn spec_opt_bool(fs: Seq<(Seq<char>, JsonV)>, key: Seq<char>) -> Option<
    Option<bool>,
> {
    match spec_lookup(fs, key) {
        None => Some(None),
        Some(JsonV::Null) => Some(None),
        Some(JsonV::Bool(b)) => Some(Some(b)),
        Some(_) => None,
    }
}

/// A required numeric field: its decimal text, undecodable when missing
/// or of another shape.
pub open spec fn spec_req_num(fs: Seq<(Seq<char>, JsonV)>, key: Seq<char>) -> Option<Seq<char>> {
    match spec_lookup(fs, key) {
        Some(JsonV::Num(s)) => Some(s),
        _ => None,
    }
}

/// A required text field.
pub open spec fn spec_req_str(fs: Seq<(Seq<char>, JsonV)>, key: Seq<char>) -> Option<Seq<char>> {
    match spec_lookup(fs, key) {
        Some(JsonV::Str(s)) => Some(s),
        _ => None,
    }
}

/// A required non-negative integer field that fits in a `u64`.
pub open spec fn spec_req_u64(fs: Seq<(Seq<char>, JsonV)>, key: Seq<char>) -> Option<u64> {
    match spec_req_num(fs, key) {
        Some(s) => spec_parse_u64(s),
        None => None,
    }
}

/// The measurement bag a JSON value decodes to: an object whose ten
/// optional fields are numbers when present.
pub open spec fn spec_decode_value(v: JsonV) -> Option<ObservationValueV> {
    match v {
        JsonV::Obj(fs) => {
            let dewpt = spec_opt_num(fs, "dewpt"@);
            let elev = spec_opt_num(fs, "elev"@);
            let heat_index = spec_opt_num(fs, "heatIndex"@);
            let precip_rate = spec_opt_num(fs, "precipRate"@);
            let precip_total = spec_opt_num(fs, "precipTotal"@);
            let pressure = spec_opt_num(fs, "pressure"@);
            let temp = spec_opt_num(fs, "temp"@);
            let wind_chill = spec_opt_num(fs, "windChill"@);
            let wind_gust = spec_opt_num(fs, "windGust"@);
            let wind_speed = spec_opt_num(fs, "windSpeed"@);
            if dewpt is Some && elev is Some && heat_index is Some && precip_rate is Some
                && precip_total is Some && pressure is Some && temp is Some && wind_chill is Some
                && wind_gust is Some && wind_speed is Some {
                Some(
                    ObservationValueV {
                        dewpt: dewpt->0,
                        elev: elev->0,
                        heat_index: heat_index->0,
                        precip_rate: precip_rate->0,
                        precip_total: precip_total->0,
                        pressure: pressure->0,
                        temp: temp->0,
                        wind_chill: wind_chill->0,
                        wind_gust: wind_gust->0,
                        wind_speed: wind_speed->0,
                    },
                )
            } else {
                None
            }
        },
        _ => None,
    }
}

/// An optional embedded measurement bag: absent when missing or null.
pub open spec fn spec_opt_value_field(fs: Seq<(Seq<char>, JsonV)>, key: Seq<char>) -> Option<
    Option<ObservationValueV>,
> {
    match spec_lookup(fs, key) {
        None => Some(None),
        Some(JsonV::Null) => Some(None),
        Some(v) => match spec_decode_value(v) {
            Some(x) => Some(Some(x)),
            None => None,
        },
    }
}

/// The reading a JSON value decodes to: epoch, latitude, longitude and
/// the two timestamps are required; everything else is optional.
pub open spec fn spec_decode_observation(v: JsonV) -> Option<ObservationV> {
    match v {
        JsonV::Obj(fs) => {
            let epoch = spec_req_u64(fs, "epoch"@);
            let lat = spec_req_num(fs, "lat"@);
            let lon = spec_req_num(fs, "lon"@);
            let otl = spec_req_str(fs, "obsTimeLocal"@);
            let otu = spec_req_str(fs, "obsTimeUtc"@);
            let country = spec_opt_str(fs, "country"@);
            let neighborhood = spec_opt_str(fs, "neighborhood"@);
            let humidity = spec_opt_num(fs, "humidity"@);
            let solar_radiation = spec_opt_num(fs, "solarRadiation"@);
            let uv = spec_opt_num(fs, "uv"@);
            let winddir = spec_opt_num(fs, "winddir"@);
            let imperial = spec_opt_value_field(fs, "imperial"@);
            let metric = spec_opt_value_field(fs, "metric"@);
            if epoch is Some && lat is Some && lon is Some && otl is Some && otu is Some
                && country is Some && neighborhood is Some && humidity is Some
                && solar_radiation is Some && uv is Some && winddir is Some && imperial is Some
                && metric is Some {
                Some(
                    ObservationV {
                        country: country->0,
                        epoch: epoch->0,
                        humidity: humidity->0,
                        lat: lat->0,
                        lon: lon->0,
                        imperial: imperial->0,
                        metric: metric->0,
                        neighborhood: neighborhood->0,
                        obs_time_local: otl->0,
                        obs_time_utc: otu->0,
                        solar_radiation: solar_radiation->0,
                        uv: uv->0,
                        winddir: winddir->0,
                    },
                )
            } else {
                None
            }
        },
        _ => None,
    }
}

/// The error record a JSON value decodes to.
pub open spec fn spec_decode_error(v: JsonV) -> Option<ObservationErrorV> {
    match v {
        JsonV::Obj(fs) => {
            let code = spec_req_str(fs, "code"@);
            let message = spec_req_str(fs, "message"@);
            if code is Some && message is Some {
                Some(ObservationErrorV { code: code->0, message: message->0 })
            } else {
                None
            }
        },
        _ => None,
    }
}

/// The readings a list decodes to, from position `i` on: every element
/// must decode.
pub open spec fn spec_decode_obs_from(items: Seq<JsonV>, i: int) -> Option<Seq<ObservationV>>
    decreases items.len() - i,
{
    if i < 0 || i >= items.len() {
        Some(Seq::empty())
    } else {
        match (spec_decode_observation(items[i]), spec_decode_obs_from(items, i + 1)) {
            (Some(o), Some(rest)) => Some(seq![o] + rest),
            _ => None,
        }
    }
}

/// The error records a list decodes to, from position `i` on.
pub open spec fn spec_decode_errs_from(items: Seq<JsonV>, i: int) -> Option<Seq<ObservationErrorV>>
    decreases items.len() - i,
{
    if i < 0 || i >= items.len() {
        Some(Seq::empty())
    } else {
        match (spec_decode_error(items[i]), spec_decode_errs_from(items, i + 1)) {
            (Some(e), Some(rest)) => Some(seq![e] + rest),
            _ => None,
        }
    }
}

/// An optional list of readings: absent when missing or null; when
/// there, it must be a list and every element must decode.
pub open spec fn spec_opt_obs_list(fs: Seq<(Seq<char>, JsonV)>, key: Seq<char>) -> Option<
    Option<Seq<ObservationV>>,
> {
    match spec_lookup(fs, key) {
        None => Some(None),
        Some(JsonV::Null) => Some(None),
        Some(JsonV::Arr(items)) => match spec_decode_obs_from(items, 0) {
            Some(s) => Some(Some(s)),
            None => None,
        },
        Some(_) => None,
    }
}

/// An optional list of error records: absent when missing or null.
pub open spec fn spec_opt_err_list(fs: Seq<(Seq<char>, JsonV)>, key: Seq<char>) -> Option<
    Option<Seq<ObservationErrorV>>,
> {
    match spec_lookup(fs, key) {
        None => Some(None),
        Some(JsonV::Null) => Some(None),
        Some(JsonV::Arr(items)) => match spec_decode_errs_from(items, 0) {
            Some(s) => Some(Some(s)),
            None => None,
        },
        Some(_) => None,
    }
}

/// An optional embedded JSON value, kept as it is: absent when missing
/// or null.
pub open spec fn spec_opt_json(fs: Seq<(Seq<char>, JsonV)>, key: Seq<char>) -> Option<JsonV> {
    match spec_lookup(fs, key) {
        None => None,
        Some(JsonV::Null) => None,
        Some(v) => Some(v),
    }
}

/// The current-observation envelope a JSON value decodes to: all four
/// fields optional, each of the right shape when there.
pub open spec fn spec_decode_response(v: JsonV) -> Option<ObservationResponseV> {
    match v {
        JsonV::Obj(fs) => {
            let errors = spec_opt_err_list(fs, "errors"@);
            let observations = spec_opt_obs_list(fs, "observations"@);
            let metadata = spec_opt_json(fs, "metadata"@);
            let success = spec_opt_bool(fs, "success"@);
            if errors is Some && observations is Some && success is Some {
                Some(
                    ObservationResponseV {
                        errors: errors->0,
                        observations: observations->0,
                        metadata,
                        success: success->0,
                    },
                )
            } else {
                None
            }
        },
        _ => None,
    }
}

/// The history envelope a JSON value decodes to: the list of readings is
/// required.
pub open spec fn spec_decode_history(v: JsonV) -> Option<HistoryResponseV> {
    match v {
        JsonV::Obj(fs) => match spec_lookup(fs, "observations"@) {
            Some(JsonV::Arr(items)) => match spec_decode_obs_from(items, 0) {
                Some(s) => Some(HistoryResponseV { observations: s }),
                _ => None,
            },
            _ => None,
        },
        _ => None,
    }
}

fn wrong_shape() -> (r: String)
    ensures
        true,
{
    "payload field has an unexpected shape".to_owned()
}

fn opt_num(fields: &Vec<(String, JsonValue)>, key: &str) -> (r: Result<Option<String>, String>)
    ensures
        match r {
            Ok(v) => spec_opt_num(jv_fields(*fields), key@) == Some(view_opt(v)),
            Err(_) => spec_opt_num(jv_fields(*fields), key@) is None,
        },
{
    match lookup(fields, key) {
        None => Ok(None),
        Some(JsonValue::Null) => Ok(None),
        Some(JsonValue::Num(s)) => Ok(Some(s.clone())),
        Some(_) => Err(wrong_shape()),
    }
}

fn opt_str(fields: &Vec<(String, JsonValue)>, key: &str) -> (r: Result<Option<String>, String>)
    ensures
        match r {
            Ok(v) => spec_opt_str(jv_fields(*fields), key@) == Some(view_opt(v)),
            Err(_) => spec_opt_str(jv_fields(*fields), key@) is None,
        },
{
    match lookup(fields, key) {
        None => Ok(None),
        Some(JsonValue::Null) => Ok(None),
        Some(JsonValue::Str(s)) => Ok(Some(s.clone())),
        Some(_) => Err(wrong_shape()),
    }
}

fn opt_bool(fields: &Vec<(String, JsonValue)>, key: &str) -> (r: Result<Option<bool>, String>)
    ensures
        match r {
            Ok(v) => spec_opt_bool(jv_fields(*fields), key@) == Some(v),
            Err(_) => spec_opt_bool(jv_fields(*fields), key@) is None,
        },
{
    match lookup(fields, key) {
        None => Ok(None),
        Some(JsonValue::Null) => Ok(None),
        Some(JsonValue::Bool(b)) => Ok(Some(*b)),
        Some(_) => Err(wrong_shape()),
    }
}

fn req_num(fields: &Vec<(String, JsonValue)>, key: &str) -> (r: Result<String, String>)
    ensures
        match r {
            Ok(v) => spec_req_num(jv_fields(*fields), key@) == Some(v@),
            Err(_) => spec_req_num(jv_fields(*fields), key@) is None,
        },
{
    match lookup(fields, key) {
        Some(JsonValue::Num(s)) => Ok(s.clone()),
        _ => Err(wrong_shape()),
    }
}

fn req_str(fields: &Vec<(String, JsonValue)>, key: &str) -> (r: Result<String, String>)
    ensures
        match r {
            Ok(v) => spec_req_str(jv_fields(*fields), key@) == Some(v@),
            Err(_) => spec_req_str(jv_fields(*fields), key@) is None,
        },
{
    match lookup(fields, key) {
        Some(JsonValue::Str(s)) => Ok(s.clone()),
        _ => Err(wrong_shape()),
    }
}

fn req_u64(fields: &Vec<(String, JsonValue)>, key: &str) -> (r: Result<u64, String>)
    ensures
        match r {
            Ok(v) => spec_req_u64(jv_fields(*fields), key@) == Some(v),
            Err(_) => spec_req_u64(jv_fields(*fields), key@) is None,
        },
{
    match req_num(fields, key) {
        Ok(s) => match parse_u64(s.as_str()) {
            Some(v) => Ok(v),
            None => Err(wrong_shape()),
        },
        Err(e) => Err(e),
    }
}

/// Decode one measurement bag.
pub fn decode_value(v: &JsonValue) -> (r: Result<ObservationValue, String>)
    ensures
        match r {
            Ok(x) => spec_decode_value(v@) == Some(x@),
            Err(_) => spec_decode_value(v@) is None,
        },
{
    let fields = match v {
        JsonValue::Obj(fields) => fields,
        _ => {
            return Err(wrong_shape());
        },
    };
    let dewpt = match opt_num(fields, "dewpt") {
        Ok(x) => x,
        Err(e) => {
            return Err(e);
        },
    };
    let elev = match opt_num(fields, "elev") {
        Ok(x) => x,
        Err(e) => {
            return Err(e);
        },
    };
    let heat_index = match opt_num(fields, "heatIndex") {
        Ok(x) => x,
        Err(e) => {
            return Err(e);
        },
    };
    let precip_rate = match opt_num(fields, "precipRate") {
        Ok(x) => x,
        Err(e) => {
            return Err(e);
        },
    };
    let precip_total = match opt_num(fields, "precipTotal") {
        Ok(x) => x,
        Err(e) => {
            return Err(e);
        },
    };
    let pressure = match opt_num(fields, "pressure") {
        Ok(x) => x,
        Err(e) => {
            return Err(e);
        },
    };
    let temp = match opt_num(fields, "temp") {
        Ok(x) => x,
        Err(e) => {
            return Err(e);
        },
    };
    let wind_chill = match opt_num(fields, "windChill") {
        Ok(x) => x,
        Err(e) => {
            return Err(e);
        },
    };
    let wind_gust = match opt_num(fields, "windGust") {
        Ok(x) => x,
        Err(e) => {
            return Err(e);
        },
    };
    let wind_speed = match opt_num(fields, "windSpeed") {
        Ok(x) => x,
        Err(e) => {
            return Err(e);
        },
    };
    Ok(
        ObservationValue {
            dewpt,
            elev,
            heat_index,
            precip_rate,
            precip_total,
            pressure,
            temp,
            wind_chill,
            wind_gust,
            wind_speed,
        },
    )
}

fn opt_value_field(fields: &Vec<(String, JsonValue)>, key: &str) -> (r: Result<
    Option<ObservationValue>,
    String,
>)
    ensures
        match r {
            Ok(v) => spec_opt_value_field(jv_fields(*fields), key@) == Some(view_opt_value(v)),
            Err(_) => spec_opt_value_field(jv_fields(*fields), key@) is None,
        },
{
    match lookup(fields, key) {
        None => Ok(None),
        Some(JsonValue::Null) => Ok(None),
        Some(v) => match decode_value(v) {
            Ok(x) => Ok(Some(x)),
            Err(e) => Err(e),
        },
    }
}

/// Decode one reading.
pub fn decode_observation(v: &JsonValue) -> (r: Result<Observation, String>)
    ensures
        match r {
            Ok(x) => spec_decode_observation(v@) == Some(x@),
            Err(_) => spec_decode_observation(v@) is None,
        },
{
    let fields = match v {
        JsonValue::Obj(fields) => fields,
        _ => {
            return Err(wrong_shape());
        },
    };
    let epoch = match req_u64(fields, "epoch") {
        Ok(x) => x,
        Err(e) => {
            return Err(e);
        },
    };
    let lat = match req_num(fields, "lat") {
        Ok(x) => x,
        Err(e) => {
            return Err(e);
        },
    };
    let lon = match req_num(fields, "lon") {
        Ok(x) => x,
        Err(e) => {
            return Err(e);
        },
    };
    let obs_time_local = match req_str(fields, "obsTimeLocal") {
        Ok(x) => x,
        Err(e) => {
            return Err(e);
        },
    };
    let obs_time_utc = match req_str(fields, "obsTimeUtc") {
        Ok(x) => x,
        Err(e) => {
            return Err(e);
        },
    };
    let country = match opt_str(fields, "country") {
        Ok(x) => x,
        Err(e) => {
            return Err(e);
        },
    };
    let neighborhood = match opt_str(fields, "neighborhood") {
        Ok(x) => x,
        Err(e) => {
            return Err(e);
        },
    };
    let humidity = match opt_num(fields, "humidity") {
        Ok(x) => x,
        Err(e) => {
            return Err(e);
        },
    };
    let solar_radiation = match opt_num(fields, "solarRadiation") {
        Ok(x) => x,
        Err(e) => {
            return Err(e);
        },
    };
    let uv = match opt_num(fields, "uv") {
        Ok(x) => x,
        Err(e) => {
            return Err(e);
        },
    };
    let winddir = match opt_num(fields, "winddir") {
        Ok(x) => x,
        Err(e) => {
            return Err(e);
        },
    };
    let imperial = match opt_value_field(fields, "imperial") {
        Ok(x) => x,
        Err(e) => {
            return Err(e);
        },
    };
    let metric = match opt_value_field(fields, "metric") {
        Ok(x) => x,
        Err(e) => {
            return Err(e);
        },
    };
    Ok(
        Observation {
            country,
            epoch,
            humidity,
            lat,
            lon,
            imperial,
            metric,
            neighborhood,
            obs_time_local,
            obs_time_utc,
            solar_radiation,
            uv,
            winddir,
        },
    )
}

/// Decode one error record.
pub fn decode_error(v: &JsonValue) -> (r: Result<ObservationError, String>)
    ensures
        match r {
            Ok(x) => spec_decode_error(v@) == Some(x@),
            Err(_) => spec_decode_error(v@) is None,
        },
{
    let fields = match v {
        JsonValue::Obj(fields) => fields,
        _ => {
            return Err(wrong_shape());
        },
    };
    let code = match req_str(fields, "code") {
        Ok(x) => x,
        Err(e) => {
            return Err(e);
        },
    };
    let message = match req_str(fields, "message") {
        Ok(x) => x,
        Err(e) => {
            return Err(e);
        },
    };
    Ok(ObservationError { code, message })
}

/// A list decodes element by element: if every element decodes, the list
/// decodes to the list of the elements.
pub proof fn lemma_obs_from_all(items: Seq<JsonV>, i: int, out: Seq<ObservationV>)
    requires
        0 <= i <= items.len(),
        out.len() == items.len() - i,
        forall|j: int|
            i <= j < items.len() ==> #[trigger] spec_decode_observation(items[j]) == Some(
                out[j - i],
            ),
    ensures
        spec_decode_obs_from(items, i) == Some(out),
    decreases items.len() - i,
{
    if i == items.len() {
        assert(out =~= Seq::<ObservationV>::empty());
    } else {
        lemma_obs_from_all(items, i + 1, out.drop_first());
        assert(out =~= seq![out[0]] + out.drop_first());
    }
}

proof fn lemma_obs_from_err(items: Seq<JsonV>, k: int, i: int)
    requires
        0 <= k <= i < items.len(),
        spec_decode_observation(items[i]) is None,
    ensures
        spec_decode_obs_from(items, k) is None,
    decreases i - k,
{
    if k < i {
        lemma_obs_from_err(items, k + 1, i);
    }
}

/// A list of error records decodes element by element.
pub proof fn lemma_errs_from_all(items: Seq<JsonV>, i: int, out: Seq<ObservationErrorV>)
    requires
        0 <= i <= items.len(),
        out.len() == items.len() - i,
        forall|j: int|
            i <= j < items.len() ==> #[trigger] spec_decode_error(items[j]) == Some(out[j - i]),
    ensures
        spec_decode_errs_from(items, i) == Some(out),
    decreases items.len() - i,
{
    if i == items.len() {
        assert(out =~= Seq::<ObservationErrorV>::empty());
    } else {
        lemma_errs_from_all(items, i + 1, out.drop_first());
        assert(out =~= seq![out[0]] + out.drop_first());
    }
}

proof fn lemma_errs_from_err(items: Seq<JsonV>, k: int, i: int)
    requires
        0 <= k <= i < items.len(),
        spec_decode_error(items[i]) is None,
    ensures
        spec_decode_errs_from(items, k) is None,
    decreases i - k,
{
    if k < i {
        lemma_errs_from_err(items, k + 1, i);
    }
}

/// Decode a list of readings; every element must decode.
pub fn decode_observations(items: &Vec<JsonValue>) -> (r: Result<Vec<Observation>, String>)
    ensures
        match r {
            Ok(out) => spec_decode_obs_from(jv_seq(*items), 0) == Some(
                out@.map_values(|o: Observation| o@),
            ),
            Err(_) => spec_decode_obs_from(jv_seq(*items), 0) is None,
        },
{
    let n = items.len();
    let mut out: Vec<Observation> = Vec::new();
    let mut i: usize = 0;
    while i < n
        invariant
            n == items@.len(),
            0 <= i <= n,
            out@.len() == i,
            forall|j: int|
                0 <= j < i ==> #[trigger] spec_decode_observation(jv_seq(*items)[j]) == Some(
                    out@[j]@,
                ),
        decreases n - i,
    {
        match decode_observation(&items[i]) {
            Ok(o) => {
                out.push(o);
            },
            Err(e) => {
                proof {
                    lemma_obs_from_err(jv_seq(*items), 0, i as int);
                }
                return Err(e);
            },
        }
        i = i + 1;
    }
    proof {
        let m = out@.map_values(|o: Observation| o@);
        assert(m.len() == jv_seq(*items).len());
        assert(forall|j: int|
            0 <= j < jv_seq(*items).len() ==> #[trigger] spec_decode_observation(
                jv_seq(*items)[j],
            ) == Some(m[j]));
        lemma_obs_from_all(jv_seq(*items), 0, m);
    }
    Ok(out)
}

/// Decode a list of error records; every element must decode.
pub fn decode_errors(items: &Vec<JsonValue>) -> (r: Result<Vec<ObservationError>, String>)
    ensures
        match r {
            Ok(out) => spec_decode_errs_from(jv_seq(*items), 0) == Some(
                out@.map_values(|e: ObservationError| e@),
            ),
            Err(_) => spec_decode_errs_from(jv_seq(*items), 0) is None,
        },
{
    let n = items.len();
    let mut out: Vec<ObservationError> = Vec::new();
    let mut i: usize = 0;
    while i < n
        invariant
            n == items@.len(),
            0 <= i <= n,
            out@.len() == i,
            forall|j: int|
                0 <= j < i ==> #[trigger] spec_decode_error(jv_seq(*items)[j]) == Some(out@[j]@),
        decreases n - i,
    {
        match decode_error(&items[i]) {
            Ok(o) => {
                out.push(o);
            },
            Err(e) => {
                proof {
                    lemma_errs_from_err(jv_seq(*items), 0, i as int);
                }
                return Err(e);
            },
        }
        i = i + 1;
    }
    proof {
        let m = out@.map_values(|e: ObservationError| e@);
        assert(m.len() == jv_seq(*items).len());
        assert(forall|j: int|
            0 <= j < jv_seq(*items).len() ==> #[trigger] spec_decode_error(jv_seq(*items)[j])
                == Some(m[j]));
        lemma_errs_from_all(jv_seq(*items), 0, m);
    }
    Ok(out)
}

/// Decode a current-observation envelope.
pub fn decode_response(v: &JsonValue) -> (r: Result<ObservationResponse, String>)
    ensures
        match r {
            Ok(x) => spec_decode_response(v@) == Some(x@),
            Err(_) => spec_decode_response(v@) is None,
        },
{
    let fields = match v {
        JsonValue::Obj(fields) => fields,
        _ => {
            return Err(wrong_shape());
        },
    };
    let errors: Option<Vec<ObservationError>> = match lookup(fields, "errors") {
        None => None,
        Some(JsonValue::Null) => None,
        Some(JsonValue::Arr(items)) => match decode_errors(items) {
            Ok(es) => Some(es),
            Err(e) => {
                return Err(e);
            },
        },
        Some(_) => {
            return Err(wrong_shape());
        },
    };
    let observations: Option<Vec<Observation>> = match lookup(fields, "observations") {
        None => None,
        Some(JsonValue::Null) => None,
        Some(JsonValue::Arr(items)) => match decode_observations(items) {
            Ok(os) => Some(os),
            Err(e) => {
                return Err(e);
            },
        },
        Some(_) => {
            return Err(wrong_shape());
        },
    };
    let metadata: Option<JsonValue> = match lookup(fields, "metadata") {
        None => None,
        Some(JsonValue::Null) => None,
        Some(m) => Some(json_clone(m)),
    };
    let success: Option<bool> = match opt_bool(fields, "success") {
        Ok(b) => b,
        Err(e) => {
            return Err(e);
        },
    };
    Ok(ObservationResponse { errors, observations, metadata, success })
}

/// Decode a history envelope.
pub fn decode_history(v: &JsonValue) -> (r: Result<HistoryResponse, String>)
    ensures
        match r {
            Ok(x) => spec_decode_history(v@) == Some(x@),
            Err(_) => spec_decode_history(v@) is None,
        },
{
    let fields = match v {
        JsonValue::Obj(fields) => fields,
        _ => {
            return Err(wrong_shape());
        },
    };
    match lookup(fields, "observations") {
        Some(JsonValue::Arr(items)) => match decode_observations(items) {
            Ok(os) => Ok(HistoryResponse { observations: os }),
            Err(e) => Err(e),
        },
        _ => Err(wrong_shape()),
    }
}

/// Decode the body of a current-observation response: the text must be
/// valid JSON and its value a well-shaped envelope; anything else is a
/// `PayloadInvalid` error.
pub fn decode_current_body(text: &str) -> (r: Result<ObservationResponse, Error>)
    ensures
        match r {
            Ok(x) => json_of_text(text@) matches Some(j) && spec_decode_response(j) == Some(x@),
            Err(e) => e is PayloadInvalid && (match json_of_text(text@) {
                Some(j) => spec_decode_response(j) is None,
                None => true,
            }),
        },
{
    match parse_json(text) {
        Ok(v) => match decode_response(&v) {
            Ok(x) => Ok(x),
            Err(e) => Err(Error::PayloadInvalid(e)),
        },
        Err(e) => Err(Error::PayloadInvalid(e)),
    }
}

/// Decode the body of a history response.
pub fn decode_history_body(text: &str) -> (r: Result<HistoryResponse, Error>)
    ensures
        match r {
            Ok(x) => json_of_text(text@) matches Some(j) && spec_decode_history(j) == Some(x@),
            Err(e) => e is PayloadInvalid && (match json_of_text(text@) {
                Some(j) => spec_decode_history(j) is None,
                None => true,
            }),
        },
{
    match parse_json(text) {
        Ok(v) => match decode_history(&v) {
            Ok(x) => Ok(x),
            Err(e) => Err(Error::PayloadInvalid(e)),
        },
        Err(e) => Err(Error::PayloadInvalid(e)),
    }
}

} // verus!
