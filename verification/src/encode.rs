//! Encoding typed observation structures back into JSON values, and the
//! round-trip law: decoding an encoded structure yields it unchanged.

use vstd::prelude::*;
use vstd::string::StringExecFns;
use crate::json::{JsonV, JsonValue, jv_fields, jv_seq, spec_lookup, json_clone};
use crate::num::{spec_u64_digits, u64_to_string, lemma_u64_digits_round_trip};
use crate::obs::{Observation, ObservationError, ObservationErrorV, ObservationResponse,
    ObservationV, ObservationValue, ObservationValueV, HistoryResponse, HistoryResponseV,
    ObservationResponseV, view_opt};
use crate::codec::{spec_decode_value, spec_decode_observation, spec_decode_error,
    spec_decode_response, spec_decode_history};

verus! {

/// An optional number on the wire: its decimal text, or null.
pub open spec fn spec_enc_opt_num(x: Option<Seq<char>>) -> JsonV {
    match x {
        Some(s) => JsonV::Num(s),
        None => JsonV::Null,
    }
}

/// An optional text on the wire: the text, or null.
pub open spec fn spec_enc_opt_str(x: Option<Seq<char>>) -> JsonV {
    match x {
        Some(s) => JsonV::Str(s),
        None => JsonV::Null,
    }
}

/// The wire form of a measurement bag: one field per measurement, null
/// for an absent one.
pub open spec fn spec_encode_value(x: ObservationValueV) -> JsonV {
    JsonV::Obj(
        seq![
            ("dewpt"@, spec_enc_opt_num(x.dewpt)),
            ("elev"@, spec_enc_opt_num(x.elev)),
            ("heatIndex"@, spec_enc_opt_num(x.heat_index)),
            ("precipRate"@, spec_enc_opt_num(x.precip_rate)),
            ("precipTotal"@, spec_enc_opt_num(x.precip_total)),
            ("pressure"@, spec_enc_opt_num(x.pressure)),
            ("temp"@, spec_enc_opt_num(x.temp)),
            ("windChill"@, spec_enc_opt_num(x.wind_chill)),
            ("windGust"@, spec_enc_opt_num(x.wind_gust)),
            ("windSpeed"@, spec_enc_opt_num(x.wind_speed)),
        ],
    )
}

/// An optional embedded measurement bag on the wire.
pub open spec fn spec_enc_opt_value(x: Option<ObservationValueV>) -> JsonV {
    match x {
        Some(v) => spec_encode_value(v),
        None => JsonV::Null,
    }
}

/// The wire form of a reading.
pub open spec fn spec_encode_observation(o: ObservationV) -> JsonV {
    JsonV::Obj(
        seq![
            ("country"@, spec_enc_opt_str(o.country)),
            ("epoch"@, JsonV::Num(spec_u64_digits(o.epoch as nat))),
            ("humidity"@, spec_enc_opt_num(o.humidity)),
            ("lat"@, JsonV::Num(o.lat)),
            ("lon"@, JsonV::Num(o.lon)),
            ("imperial"@, spec_enc_opt_value(o.imperial)),
            ("metric"@, spec_enc_opt_value(o.metric)),
            ("neighborhood"@, spec_enc_opt_str(o.neighborhood)),
            ("obsTimeLocal"@, JsonV::Str(o.obs_time_local)),
            ("obsTimeUtc"@, JsonV::Str(o.obs_time_utc)),
            ("solarRadiation"@, spec_enc_opt_num(o.solar_radiation)),
            ("uv"@, spec_enc_opt_num(o.uv)),
            ("winddir"@, spec_enc_opt_num(o.winddir)),
        ],
    )
}

/// The wire form of an error record.
pub open spec fn spec_encode_error(e: ObservationErrorV) -> JsonV {
    JsonV::Obj(seq![("code"@, JsonV::Str(e.code)), ("message"@, JsonV::Str(e.message))])
}

/// The wire form of a current-observation envelope.
pub open spec fn spec_encode_response(r: ObservationResponseV) -> JsonV {
    JsonV::Obj(
        seq![
            (
                "errors"@,
                match r.errors {
                    Some(es) => JsonV::Arr(Seq::new(es.len(), |i: int| spec_encode_error(es[i]))),
                    None => JsonV::Null,
                },
            ),
            (
                "observations"@,
                match r.observations {
                    Some(os) => JsonV::Arr(
                        Seq::new(os.len(), |i: int| spec_encode_observation(os[i])),
                    ),
                    None => JsonV::Null,
                },
            ),
            (
                "metadata"@,
                match r.metadata {
                    Some(m) => m,
                    None => JsonV::Null,
                },
            ),
            (
                "success"@,
                match r.success {
                    Some(b) => JsonV::Bool(b),
                    None => JsonV::Null,
                },
            ),
        ],
    )
}

/// The wire form of a history envelope.
pub open spec fn spec_encode_history(h: HistoryResponseV) -> JsonV {
    JsonV::Obj(
        seq![
            (
                "observations"@,
                JsonV::Arr(
                    Seq::new(
                        h.observations.len(),
                        |i: int| spec_encode_observation(h.observations[i]),
                    ),
                ),
            ),
        ],
    )
}

fn enc_opt_num(x: &Option<String>) -> (r: JsonValue)
    ensures
        r@ == spec_enc_opt_num(view_opt(*x)),
{
    match x {
        Some(s) => JsonValue::Num(s.clone()),
        None => JsonValue::Null,
    }
}

fn enc_opt_str(x: &Option<String>) -> (r: JsonValue)
    ensures
        r@ == spec_enc_opt_str(view_opt(*x)),
{
    match x {
        Some(s) => JsonValue::Str(s.clone()),
        None => JsonValue::Null,
    }
}

/// Encode one measurement bag.
pub fn encode_value(x: &ObservationValue) -> (r: JsonValue)
    ensures
        r@ == spec_encode_value(x@),
{
    let mut fields: Vec<(String, JsonValue)> = Vec::new();
    fields.push(("dewpt".to_owned(), enc_opt_num(&x.dewpt)));
    fields.push(("elev".to_owned(), enc_opt_num(&x.elev)));
    fields.push(("heatIndex".to_owned(), enc_opt_num(&x.heat_index)));
    fields.push(("precipRate".to_owned(), enc_opt_num(&x.precip_rate)));
    fields.push(("precipTotal".to_owned(), enc_opt_num(&x.precip_total)));
    fields.push(("pressure".to_owned(), enc_opt_num(&x.pressure)));
    fields.push(("temp".to_owned(), enc_opt_num(&x.temp)));
    fields.push(("windChill".to_owned(), enc_opt_num(&x.wind_chill)));
    fields.push(("windGust".to_owned(), enc_opt_num(&x.wind_gust)));
    fields.push(("windSpeed".to_owned(), enc_opt_num(&x.wind_speed)));
    proof {
        assert(jv_fields(fields) =~= spec_encode_value(x@)->Obj_0);
    }
    JsonValue::Obj(fields)
}

/// Encode one reading.
pub fn encode_observation(o: &Observation) -> (r: JsonValue)
    ensures
        r@ == spec_encode_observation(o@),
{
    let mut fields: Vec<(String, JsonValue)> = Vec::new();
    fields.push(("country".to_owned(), enc_opt_str(&o.country)));
    fields.push(("epoch".to_owned(), JsonValue::Num(u64_to_string(o.epoch))));
    fields.push(("humidity".to_owned(), enc_opt_num(&o.humidity)));
    fields.push(("lat".to_owned(), JsonValue::Num(o.lat.clone())));
    fields.push(("lon".to_owned(), JsonValue::Num(o.lon.clone())));
    let imperial = match &o.imperial {
        Some(v) => encode_value(v),
        None => JsonValue::Null,
    };
    fields.push(("imperial".to_owned(), imperial));
    let metric = match &o.metric {
        Some(v) => encode_value(v),
        None => JsonValue::Null,
    };
    fields.push(("metric".to_owned(), metric));
    fields.push(("neighborhood".to_owned(), enc_opt_str(&o.neighborhood)));
    fields.push(("obsTimeLocal".to_owned(), JsonValue::Str(o.obs_time_local.clone())));
    fields.push(("obsTimeUtc".to_owned(), JsonValue::Str(o.obs_time_utc.clone())));
    fields.push(("solarRadiation".to_owned(), enc_opt_num(&o.solar_radiation)));
    fields.push(("uv".to_owned(), enc_opt_num(&o.uv)));
    fields.push(("winddir".to_owned(), enc_opt_num(&o.winddir)));
    proof {
        assert(jv_fields(fields) =~= spec_encode_observation(o@)->Obj_0);
    }
    JsonValue::Obj(fields)
}

/// Encode one error record.
pub fn encode_error(e: &ObservationError) -> (r: JsonValue)
    ensures
        r@ == spec_encode_error(e@),
{
    let mut fields: Vec<(String, JsonValue)> = Vec::new();
    fields.push(("code".to_owned(), JsonValue::Str(e.code.clone())));
    fields.push(("message".to_owned(), JsonValue::Str(e.message.clone())));
    proof {
        assert(jv_fields(fields) =~= spec_encode_error(e@)->Obj_0);
    }
    JsonValue::Obj(fields)
}

/// Encode a list of readings.
pub fn encode_observations(os: &Vec<Observation>) -> (r: Vec<JsonValue>)
    ensures
        jv_seq(r) == Seq::new(os@.len(), |i: int| spec_encode_observation(os@[i]@)),
{
    let n = os.len();
    let mut out: Vec<JsonValue> = Vec::new();
    let mut i: usize = 0;
    while i < n
        invariant
            n == os@.len(),
            0 <= i <= n,
            out@.len() == i,
            forall|j: int|
                0 <= j < i ==> #[trigger] out@[j]@ == spec_encode_observation(os@[j]@),
        decreases n - i,
    {
        let e = encode_observation(&os[i]);
        out.push(e);
        i = i + 1;
    }
    proof {
        let target = Seq::new(os@.len(), |i: int| spec_encode_observation(os@[i]@));
        assert forall|j: int| 0 <= j < n implies jv_seq(out)[j] == target[j] by {
            assert(out@[j]@ == spec_encode_observation(os@[j]@));
        }
        assert(jv_seq(out) =~= target);
    }
    out
}

/// Encode a list of error records.
pub fn encode_errors(es: &Vec<ObservationError>) -> (r: Vec<JsonValue>)
    ensures
        jv_seq(r) == Seq::new(es@.len(), |i: int| spec_encode_error(es@[i]@)),
{
    let n = es.len();
    let mut out: Vec<JsonValue> = Vec::new();
    let mut i: usize = 0;
    while i < n
        invariant
            n == es@.len(),
            0 <= i <= n,
            out@.len() == i,
            forall|j: int| 0 <= j < i ==> #[trigger] out@[j]@ == spec_encode_error(es@[j]@),
        decreases n - i,
    {
        let e = encode_error(&es[i]);
        out.push(e);
        i = i + 1;
    }
    proof {
        let target = Seq::new(es@.len(), |i: int| spec_encode_error(es@[i]@));
        assert forall|j: int| 0 <= j < n implies jv_seq(out)[j] == target[j] by {
            assert(out@[j]@ == spec_encode_error(es@[j]@));
        }
        assert(jv_seq(out) =~= target);
    }
    out
}

/// Encode a current-observation envelope.
pub fn encode_response(x: &ObservationResponse) -> (r: JsonValue)
    ensures
        r@ == spec_encode_response(x@),
{
    let mut fields: Vec<(String, JsonValue)> = Vec::new();
    let errors = match &x.errors {
        Some(es) => JsonValue::Arr(encode_errors(es)),
        None => JsonValue::Null,
    };
    fields.push(("errors".to_owned(), errors));
    let observations = match &x.observations {
        Some(os) => JsonValue::Arr(encode_observations(os)),
        None => JsonValue::Null,
    };
    fields.push(("observations".to_owned(), observations));
    let metadata = match &x.metadata {
        Some(m) => json_clone(m),
        None => JsonValue::Null,
    };
    fields.push(("metadata".to_owned(), metadata));
    let success = match &x.success {
        Some(b) => JsonValue::Bool(*b),
        None => JsonValue::Null,
    };
    fields.push(("success".to_owned(), success));
    proof {
        match x@.errors {
            Some(es) => {
                assert(fields@[0].1@ == JsonV::Arr(
                    Seq::new(es.len(), |i: int| spec_encode_error(es[i])),
                )) by {
                    assert(Seq::new(x.errors->0@.len(), |i: int| spec_encode_error(
                        x.errors->0@[i]@,
                    )) =~= Seq::new(es.len(), |i: int| spec_encode_error(es[i])));
                }
            },
            None => {},
        }
        match x@.observations {
            Some(os) => {
                assert(fields@[1].1@ == JsonV::Arr(
                    Seq::new(os.len(), |i: int| spec_encode_observation(os[i])),
                )) by {
                    assert(Seq::new(x.observations->0@.len(), |i: int| spec_encode_observation(
                        x.observations->0@[i]@,
                    )) =~= Seq::new(os.len(), |i: int| spec_encode_observation(os[i])));
                }
            },
            None => {},
        }
        assert(jv_fields(fields) =~= spec_encode_response(x@)->Obj_0);
    }
    JsonValue::Obj(fields)
}

/// Decoding an encoded measurement bag yields it unchanged: present
/// measurements keep their text, absent ones stay absent.
pub proof fn lemma_value_round_trip(x: ObservationValueV)
    ensures
        spec_decode_value(spec_encode_value(x)) == Some(x),
{
    reveal_strlit("dewpt");
    reveal_strlit("elev");
    reveal_strlit("heatIndex");
    reveal_strlit("precipRate");
    reveal_strlit("precipTotal");
    reveal_strlit("pressure");
    reveal_strlit("temp");
    reveal_strlit("windChill");
    reveal_strlit("windGust");
    reveal_strlit("windSpeed");
    assert("dewpt"@.len() == 5);
    assert("elev"@.len() == 4);
    assert("heatIndex"@.len() == 9);
    assert("precipRate"@.len() == 10);
    assert("precipTotal"@.len() == 11);
    assert("pressure"@.len() == 8);
    assert("temp"@.len() == 4);
    assert("windChill"@.len() == 9);
    assert("windGust"@.len() == 8);
    assert("windSpeed"@.len() == 9);
    assert("elev"@[0] == 'e' && "temp"@[0] == 't');
    assert("heatIndex"@[0] == 'h' && "windChill"@[0] == 'w' && "windSpeed"@[0] == 'w');
    assert("windChill"@[4] == 'C' && "windSpeed"@[4] == 'S');
    assert("pressure"@[0] == 'p' && "windGust"@[0] == 'w');
    let fs = spec_encode_value(x)->Obj_0;
    reveal_with_fuel(spec_lookup, 11);
    assert(spec_lookup(fs, "dewpt"@) == Some(spec_enc_opt_num(x.dewpt)));
    assert(spec_lookup(fs, "elev"@) == Some(spec_enc_opt_num(x.elev)));
    assert(spec_lookup(fs, "heatIndex"@) == Some(spec_enc_opt_num(x.heat_index)));
    assert(spec_lookup(fs, "precipRate"@) == Some(spec_enc_opt_num(x.precip_rate)));
    assert(spec_lookup(fs, "precipTotal"@) == Some(spec_enc_opt_num(x.precip_total)));
    assert(spec_lookup(fs, "pressure"@) == Some(spec_enc_opt_num(x.pressure)));
    assert(spec_lookup(fs, "temp"@) == Some(spec_enc_opt_num(x.temp)));
    assert(spec_lookup(fs, "windChill"@) == Some(spec_enc_opt_num(x.wind_chill)));
    assert(spec_lookup(fs, "windGust"@) == Some(spec_enc_opt_num(x.wind_gust)));
    assert(spec_lookup(fs, "windSpeed"@) == Some(spec_enc_opt_num(x.wind_speed)));
}

/// Decoding an encoded reading yields it unchanged. This is the
/// round-trip law of the codec: every populated field of a well-formed
/// reading survives encoding and decoding, and every absent field stays
/// absent.
pub proof fn lemma_observation_round_trip(o: ObservationV)
    ensures
        spec_decode_observation(spec_encode_observation(o)) == Some(o),
{
    reveal_strlit("country");
    reveal_strlit("epoch");
    reveal_strlit("humidity");
    reveal_strlit("lat");
    reveal_strlit("lon");
    reveal_strlit("imperial");
    reveal_strlit("metric");
    reveal_strlit("neighborhood");
    reveal_strlit("obsTimeLocal");
    reveal_strlit("obsTimeUtc");
    reveal_strlit("solarRadiation");
    reveal_strlit("uv");
    reveal_strlit("winddir");
    assert("country"@.len() == 7);
    assert("epoch"@.len() == 5);
    assert("humidity"@.len() == 8);
    assert("lat"@.len() == 3);
    assert("lon"@.len() == 3);
    assert("imperial"@.len() == 8);
    assert("metric"@.len() == 6);
    assert("neighborhood"@.len() == 12);
    assert("obsTimeLocal"@.len() == 12);
    assert("obsTimeUtc"@.len() == 10);
    assert("solarRadiation"@.len() == 14);
    assert("uv"@.len() == 2);
    assert("winddir"@.len() == 7);
    assert("country"@[0] == 'c' && "winddir"@[0] == 'w');
    assert("humidity"@[0] == 'h' && "imperial"@[0] == 'i');
    assert("lat"@[1] == 'a' && "lon"@[1] == 'o');
    assert("neighborhood"@[0] == 'n' && "obsTimeLocal"@[0] == 'o');
    let fs = spec_encode_observation(o)->Obj_0;
    reveal_with_fuel(spec_lookup, 14);
    assert(spec_lookup(fs, "country"@) == Some(spec_enc_opt_str(o.country)));
    assert(spec_lookup(fs, "epoch"@) == Some(JsonV::Num(spec_u64_digits(o.epoch as nat))));
    assert(spec_lookup(fs, "humidity"@) == Some(spec_enc_opt_num(o.humidity)));
    assert(spec_lookup(fs, "lat"@) == Some(JsonV::Num(o.lat)));
    assert(spec_lookup(fs, "lon"@) == Some(JsonV::Num(o.lon)));
    assert(spec_lookup(fs, "imperial"@) == Some(spec_enc_opt_value(o.imperial)));
    assert(spec_lookup(fs, "metric"@) == Some(spec_enc_opt_value(o.metric)));
    assert(spec_lookup(fs, "neighborhood"@) == Some(spec_enc_opt_str(o.neighborhood)));
    assert(spec_lookup(fs, "obsTimeLocal"@) == Some(JsonV::Str(o.obs_time_local)));
    assert(spec_lookup(fs, "obsTimeUtc"@) == Some(JsonV::Str(o.obs_time_utc)));
    assert(spec_lookup(fs, "solarRadiation"@) == Some(spec_enc_opt_num(o.solar_radiation)));
    assert(spec_lookup(fs, "uv"@) == Some(spec_enc_opt_num(o.uv)));
    assert(spec_lookup(fs, "winddir"@) == Some(spec_enc_opt_num(o.winddir)));
    lemma_u64_digits_round_trip(o.epoch);
    match o.imperial {
        Some(v) => lemma_value_round_trip(v),
        None => {},
    }
    match o.metric {
        Some(v) => lemma_value_round_trip(v),
        None => {},
    }
}

/// Decoding an encoded error record yields it unchanged.
pub proof fn lemma_error_round_trip(e: ObservationErrorV)
    ensures
        spec_decode_error(spec_encode_error(e)) == Some(e),
{
    reveal_strlit("code");
    reveal_strlit("message");
    assert("code"@.len() == 4);
    assert("message"@.len() == 7);
    let fs = spec_encode_error(e)->Obj_0;
    reveal_with_fuel(spec_lookup, 3);
    assert(spec_lookup(fs, "code"@) == Some(JsonV::Str(e.code)));
    assert(spec_lookup(fs, "message"@) == Some(JsonV::Str(e.message)));
}

/// Decoding an encoded current-observation envelope yields it unchanged.
/// (An embedded metadata value of JSON null cannot survive: on the wire
/// it is indistinguishable from an absent field, which decodes to
/// absent.)
pub proof fn lemma_response_round_trip(r: ObservationResponseV)
    requires
        r.metadata matches Some(m) ==> m != JsonV::Null,
    ensures
        spec_decode_response(spec_encode_response(r)) == Some(r),
{
    reveal_strlit("errors");
    reveal_strlit("observations");
    reveal_strlit("metadata");
    reveal_strlit("success");
    assert("errors"@.len() == 6);
    assert("observations"@.len() == 12);
    assert("metadata"@.len() == 8);
    assert("success"@.len() == 7);
    let fs = spec_encode_response(r)->Obj_0;
    reveal_with_fuel(spec_lookup, 5);
    assert(fs[0].0 == "errors"@ && fs[1].0 == "observations"@ && fs[2].0 == "metadata"@
        && fs[3].0 == "success"@);
    match r.errors {
        Some(es) => {
            let items = Seq::new(es.len(), |i: int| spec_encode_error(es[i]));
            assert forall|j: int|
                0 <= j < items.len() implies #[trigger] spec_decode_error(items[j]) == Some(
                es[j],
            ) by {
                lemma_error_round_trip(es[j]);
            }
            crate::codec::lemma_errs_from_all(items, 0, es);
        },
        None => {},
    }
    match r.observations {
        Some(os) => {
            let items = Seq::new(os.len(), |i: int| spec_encode_observation(os[i]));
            assert forall|j: int|
                0 <= j < items.len() implies #[trigger] spec_decode_observation(items[j]) == Some(
                os[j],
            ) by {
                lemma_observation_round_trip(os[j]);
            }
            crate::codec::lemma_obs_from_all(items, 0, os);
        },
        None => {},
    }
}

/// Decoding an encoded history envelope yields it unchanged.
pub proof fn lemma_history_round_trip(h: HistoryResponseV)
    ensures
        spec_decode_history(spec_encode_history(h)) == Some(h),
{
    reveal_strlit("observations");
    let fs = spec_encode_history(h)->Obj_0;
    reveal_with_fuel(spec_lookup, 2);
    let items = Seq::new(h.observations.len(), |i: int| spec_encode_observation(h.observations[i]));
    assert forall|j: int|
        0 <= j < items.len() implies #[trigger] spec_decode_observation(items[j]) == Some(
        h.observations[j],
    ) by {
        lemma_observation_round_trip(h.observations[j]);
    }
    crate::codec::lemma_obs_from_all(items, 0, h.observations);
}

} // verus!
