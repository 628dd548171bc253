//! Building the metric record that the publishing sink receives for one
//! decoded reading: the measurement name, the tags, and the numeric
//! fields that are present, as decimal text.

use vstd::prelude::*;
use vstd::string::StringExecFns;
use crate::query::Unit;
use crate::obs::{Observation, ObservationV, ObservationValue, ObservationValueV, spec_values, view_opt};

verus! {

/// One record handed to the publishing sink.
#[derive(Debug)]
pub struct MetricRecord {
    /// The measurement name: the station id under a fixed prefix.
    pub name: String,
    /// Tag names and values: unit system, labels and position.
    pub tags: Vec<(String, String)>,
    /// Field names and values; a value is the decimal text of the
    /// measurement.
    pub fields: Vec<(String, String)>,
}

/// The model of a list of name/value pairs.
pub open spec fn spec_pairs(v: Seq<(String, String)>) -> Seq<(Seq<char>, Seq<char>)> {
    v.map_values(|p: (String, String)| (p.0@, p.1@))
}

/// One optional field: present in the record exactly when the reading
/// carries it.
pub open spec fn spec_opt_pair(name: Seq<char>, x: Option<Seq<char>>) -> Seq<
    (Seq<char>, Seq<char>),
> {
    match x {
        Some(t) => seq![(name, t)],
        None => Seq::empty(),
    }
}

/// The tags of a record: the unit system, the labels the reading
/// carries, and its position.
pub open spec fn spec_record_tags(unit: Unit, o: ObservationV) -> Seq<(Seq<char>, Seq<char>)> {
    seq![("unit"@, unit.spec_str())] + spec_opt_pair("country"@, o.country) + spec_opt_pair(
        "neighborhood"@,
        o.neighborhood,
    ) + seq![("lat"@, o.lat), ("lng"@, o.lon)]
}

/// The fields of one measurement bag.
pub open spec fn spec_value_fields(v: ObservationValueV) -> Seq<(Seq<char>, Seq<char>)> {
    spec_opt_pair("dewpt"@, v.dewpt) + spec_opt_pair("elev"@, v.elev) + spec_opt_pair(
        "heat_index"@,
        v.heat_index,
    ) + spec_opt_pair("precip_rate"@, v.precip_rate) + spec_opt_pair(
        "precip_total"@,
        v.precip_total,
    ) + spec_opt_pair("pressure"@, v.pressure) + spec_opt_pair("temp"@, v.temp) + spec_opt_pair(
        "wind_chill"@,
        v.wind_chill,
    ) + spec_opt_pair("wind_gust"@, v.wind_gust) + spec_opt_pair("wind_speed"@, v.wind_speed)
}

/// The fields of a record: the reading's own optional measurements
/// (wind direction under the name `wind_dir`), then the measurements of
/// its preferred bag, metric before imperial; a reading without a bag
/// contributes no bag fields.
pub open spec fn spec_record_fields(o: ObservationV) -> Seq<(Seq<char>, Seq<char>)> {
    spec_opt_pair("humidity"@, o.humidity) + spec_opt_pair("solar_radiation"@, o.solar_radiation)
        + spec_opt_pair("uv"@, o.uv) + spec_opt_pair("wind_dir"@, o.winddir) + (match spec_values(
        o,
    ) {
        Some(v) => spec_value_fields(v),
        None => Seq::empty(),
    })
}

/// The measurement name of a station's records.
pub open spec fn spec_record_name(station: Seq<char>) -> Seq<char> {
    "weather-underground_"@ + station
}

fn push_opt(out: &mut Vec<(String, String)>, name: &str, x: &Option<String>)
    ensures
        spec_pairs(final(out)@) == spec_pairs(old(out)@) + spec_opt_pair(name@, view_opt(*x)),
{
    match x {
        Some(t) => {
            out.push((name.to_owned(), t.clone()));
        },
        None => {},
    }
    proof {
        assert(spec_pairs(out@) =~= spec_pairs(old(out)@) + spec_opt_pair(name@, view_opt(*x)));
    }
}

fn push_pair(out: &mut Vec<(String, String)>, name: &str, value: String)
    ensures
        spec_pairs(final(out)@) == spec_pairs(old(out)@) + seq![(name@, value@)],
{
    out.push((name.to_owned(), value));
    proof {
        assert(spec_pairs(out@) =~= spec_pairs(old(out)@) + seq![(name@, value@)]);
    }
}

fn build_tags(unit: Unit, o: &Observation) -> (r: Vec<(String, String)>)
    ensures
        spec_pairs(r@) == spec_record_tags(unit, o@),
{
    let mut tags: Vec<(String, String)> = Vec::new();
    push_pair(&mut tags, "unit", unit.as_str().to_owned());
    push_opt(&mut tags, "country", &o.country);
    push_opt(&mut tags, "neighborhood", &o.neighborhood);
    push_pair(&mut tags, "lat", o.lat.clone());
    push_pair(&mut tags, "lng", o.lon.clone());
    proof {
        assert(spec_pairs(tags@) =~= spec_record_tags(unit, o@));
    }
    tags
}

#[verifier::rlimit(60)]
fn push_value_fields(out: &mut Vec<(String, String)>, v: &ObservationValue)
    ensures
        spec_pairs(final(out)@) == spec_pairs(old(out)@) + spec_value_fields(v@),
{
    push_opt(out, "dewpt", &v.dewpt);
    push_opt(out, "elev", &v.elev);
    push_opt(out, "heat_index", &v.heat_index);
    push_opt(out, "precip_rate", &v.precip_rate);
    push_opt(out, "precip_total", &v.precip_total);
    push_opt(out, "pressure", &v.pressure);
    push_opt(out, "temp", &v.temp);
    push_opt(out, "wind_chill", &v.wind_chill);
    push_opt(out, "wind_gust", &v.wind_gust);
    push_opt(out, "wind_speed", &v.wind_speed);
    proof {
        assert(spec_pairs(out@) =~= spec_pairs(old(out)@) + spec_value_fields(v@));
    }
}

fn build_fields(o: &Observation) -> (r: Vec<(String, String)>)
    ensures
        spec_pairs(r@) == spec_record_fields(o@),
{
    let mut fields: Vec<(String, String)> = Vec::new();
    push_opt(&mut fields, "humidity", &o.humidity);
    push_opt(&mut fields, "solar_radiation", &o.solar_radiation);
    push_opt(&mut fields, "uv", &o.uv);
    push_opt(&mut fields, "wind_dir", &o.winddir);
    let ghost head = spec_opt_pair("humidity"@, o@.humidity) + spec_opt_pair(
        "solar_radiation"@,
        o@.solar_radiation,
    ) + spec_opt_pair("uv"@, o@.uv) + spec_opt_pair("wind_dir"@, o@.winddir);
    proof {
        assert(spec_pairs(fields@) =~= head);
    }
    match o.values() {
        Some(v) => {
            push_value_fields(&mut fields, v);
        },
        None => {},
    }
    proof {
        assert(spec_pairs(fields@) =~= spec_record_fields(o@));
    }
    fields
}

/// Build the record the sink receives for one reading of a station: the
/// prefixed station name, the unit and position tags with the labels the
/// reading carries, and every measurement that is present, from the
/// preferred bag.
pub fn metric_record(unit: Unit, station_id: &str, o: &Observation) -> (r: MetricRecord)
    ensures
        r.name@ == spec_record_name(station_id@),
        spec_pairs(r.tags@) == spec_record_tags(unit, o@),
        spec_pairs(r.fields@) == spec_record_fields(o@),
{
    let mut name = "weather-underground_".to_owned();
    name.append(station_id);
    let tags = build_tags(unit, o);
    let fields = build_fields(o);
    MetricRecord { name, tags, fields }
}

} // verus!
