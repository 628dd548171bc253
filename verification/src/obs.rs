//! The typed shape of observation payloads. Numeric measurements are
//! held as the decimal text of the wire value: the library forwards them
//! and computes nothing with them.

use vstd::prelude::*;
use crate::json::{JsonV, JsonValue};

verus! {

/// One bag of measurements, in one unit system; every field is optional.
#[derive(Debug, PartialEq)]
pub struct ObservationValue {
    pub dewpt: Option<String>,
    pub elev: Option<String>,
    pub heat_index: Option<String>,
    pub precip_rate: Option<String>,
    pub precip_total: Option<String>,
    pub pressure: Option<String>,
    pub temp: Option<String>,
    pub wind_chill: Option<String>,
    pub wind_gust: Option<String>,
    pub wind_speed: Option<String>,
}

/// The model of a measurement bag.
pub ghost struct ObservationValueV {
    pub dewpt: Option<Seq<char>>,
    pub elev: Option<Seq<char>>,
    pub heat_index: Option<Seq<char>>,
    pub precip_rate: Option<Seq<char>>,
    pub precip_total: Option<Seq<char>>,
    pub pressure: Option<Seq<char>>,
    pub temp: Option<Seq<char>>,
    pub wind_chill: Option<Seq<char>>,
    pub wind_gust: Option<Seq<char>>,
    pub wind_speed: Option<Seq<char>>,
}

/// The model of an optional text field.
pub open spec fn view_opt(s: Option<String>) -> Option<Seq<char>> {
    match s {
        Some(t) => Some(t@),
        None => None,
    }
}

impl View for ObservationValue {
    type V = ObservationValueV;

    open spec fn view(&self) -> ObservationValueV {
        ObservationValueV {
            dewpt: view_opt(self.dewpt),
            elev: view_opt(self.elev),
            heat_index: view_opt(self.heat_index),
            precip_rate: view_opt(self.precip_rate),
            precip_total: view_opt(self.precip_total),
            pressure: view_opt(self.pressure),
            temp: view_opt(self.temp),
            wind_chill: view_opt(self.wind_chill),
            wind_gust: view_opt(self.wind_gust),
            wind_speed: view_opt(self.wind_speed),
        }
    }
}

/// One timestamped reading of a station.
#[derive(Debug, PartialEq)]
pub struct Observation {
    pub country: Option<String>,
    pub epoch: u64,
    pub humidity: Option<String>,
    pub lat: String,
    pub lon: String,
    pub imperial: Option<ObservationValue>,
    pub metric: Option<ObservationValue>,
    pub neighborhood: Option<String>,
    pub obs_time_local: String,
    pub obs_time_utc: String,
    pub solar_radiation: Option<String>,
    pub uv: Option<String>,
    pub winddir: Option<String>,
}

/// The model of a reading.
pub ghost struct ObservationV {
    pub country: Option<Seq<char>>,
    pub epoch: u64,
    pub humidity: Option<Seq<char>>,
    pub lat: Seq<char>,
    pub lon: Seq<char>,
    pub imperial: Option<ObservationValueV>,
    pub metric: Option<ObservationValueV>,
    pub neighborhood: Option<Seq<char>>,
    pub obs_time_local: Seq<char>,
    pub obs_time_utc: Seq<char>,
    pub solar_radiation: Option<Seq<char>>,
    pub uv: Option<Seq<char>>,
    pub winddir: Option<Seq<char>>,
}

/// The model of an optional measurement bag.
pub open spec fn view_opt_value(v: Option<ObservationValue>) -> Option<ObservationValueV> {
    match v {
        Some(x) => Some(x@),
        None => None,
    }
}

impl View for Observation {
    type V = ObservationV;

    open spec fn view(&self) -> ObservationV {
        ObservationV {
            country: view_opt(self.country),
            epoch: self.epoch,
            humidity: view_opt(self.humidity),
            lat: self.lat@,
            lon: self.lon@,
            imperial: view_opt_value(self.imperial),
            metric: view_opt_value(self.metric),
            neighborhood: view_opt(self.neighborhood),
            obs_time_local: self.obs_time_local@,
            obs_time_utc: self.obs_time_utc@,
            solar_radiation: view_opt(self.solar_radiation),
            uv: view_opt(self.uv),
            winddir: view_opt(self.winddir),
        }
    }
}

/// The measurements a reading carries: the metric bag when it is there,
/// else the imperial one, else none.
pub open spec fn spec_values(o: ObservationV) -> Option<ObservationValueV> {
    if o.metric is Some {
        o.metric
    } else {
        o.imperial
    }
}

impl Observation {
    /// The measurements of the reading, preferring the metric bag.
    pub fn values(&self) -> (r: Option<&ObservationValue>)
        ensures
            match r {
                Some(v) => spec_values(self@) == Some(v@),
                None => spec_values(self@) is None,
            },
    {
        match &self.metric {
            Some(m) => Some(m),
            None => match &self.imperial {
                Some(i) => Some(i),
                None => None,
            },
        }
    }
}

/// One error record of the upstream API.
#[derive(Debug, PartialEq)]
pub struct ObservationError {
    pub code: String,
    pub message: String,
}

/// The model of an error record.
pub ghost struct ObservationErrorV {
    pub code: Seq<char>,
    pub message: Seq<char>,
}

impl View for ObservationError {
    type V = ObservationErrorV;

    open spec fn view(&self) -> ObservationErrorV {
        ObservationErrorV { code: self.code@, message: self.message@ }
    }
}

/// The envelope of a current-observation response. Every field is
/// optional: the upstream API answers in different shapes on success,
/// error and empty result.
#[derive(Debug, PartialEq)]
pub struct ObservationResponse {
    pub errors: Option<Vec<ObservationError>>,
    pub observations: Option<Vec<Observation>>,
    pub metadata: Option<JsonValue>,
    pub success: Option<bool>,
}

/// The model of a current-observation envelope.
pub ghost struct ObservationResponseV {
    pub errors: Option<Seq<ObservationErrorV>>,
    pub observations: Option<Seq<ObservationV>>,
    pub metadata: Option<JsonV>,
    pub success: Option<bool>,
}

/// The model of an optional list of error records.
pub open spec fn view_opt_errors(v: Option<Vec<ObservationError>>) -> Option<
    Seq<ObservationErrorV>,
> {
    match v {
        Some(x) => Some(x@.map_values(|e: ObservationError| e@)),
        None => None,
    }
}

/// The model of an optional list of readings.
pub open spec fn view_opt_observations(v: Option<Vec<Observation>>) -> Option<Seq<ObservationV>> {
    match v {
        Some(x) => Some(x@.map_values(|o: Observation| o@)),
        None => None,
    }
}

/// The model of an optional embedded JSON value.
pub open spec fn view_opt_json(v: Option<JsonValue>) -> Option<JsonV> {
    match v {
        Some(x) => Some(x@),
        None => None,
    }
}

impl View for ObservationResponse {
    type V = ObservationResponseV;

    open spec fn view(&self) -> ObservationResponseV {
        ObservationResponseV {
            errors: view_opt_errors(self.errors),
            observations: view_opt_observations(self.observations),
            metadata: view_opt_json(self.metadata),
            success: self.success,
        }
    }
}

/// The envelope of a history response: a list of readings.
#[derive(Debug, PartialEq)]
pub struct HistoryResponse {
    pub observations: Vec<Observation>,
}

/// The model of a history envelope.
pub ghost struct HistoryResponseV {
    pub observations: Seq<ObservationV>,
}

impl View for HistoryResponse {
    type V = HistoryResponseV;

    open spec fn view(&self) -> HistoryResponseV {
        HistoryResponseV { observations: self.observations@.map_values(|o: Observation| o@) }
    }
}

} // verus!
