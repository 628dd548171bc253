//! The polling policy: bounded retry per station, continue on empty
//! results, stop a station on a bad payload, abort the iteration when a
//! station exhausts its budget.

use vstd::prelude::*;
use crate::json::json_of_text;
use crate::codec::{decode_current_body, spec_decode_response};
use crate::obs::{ObservationResponse, ObservationResponseV};

verus! {

/// The failures of the polling service.
#[derive(Debug)]
pub enum Error {
    /// The bootstrap page carried no credential.
    ApiKeyNotFound,
    /// A station exhausted its retry budget.
    TooManyRetry,
}

/// What one fetch attempt yielded, as handed in by the transport: a
/// transient failure (a transport error or a rejected status), a valid
/// empty answer, or a response body to decode.
#[derive(Debug)]
pub enum FetchOutcome {
    Failed,
    NoResult,
    Body(String),
}

/// The model of a fetch outcome.
pub ghost enum FetchOutcomeV {
    Failed,
    NoResult,
    Body(Seq<char>),
}

impl View for FetchOutcome {
    type V = FetchOutcomeV;

    open spec fn view(&self) -> FetchOutcomeV {
        match self {
            FetchOutcome::Failed => FetchOutcomeV::Failed,
            FetchOutcome::NoResult => FetchOutcomeV::NoResult,
            FetchOutcome::Body(s) => FetchOutcomeV::Body(s@),
        }
    }
}

/// How the retry loop ends for one station: a decoded response to
/// publish, a valid empty answer, a payload that does not decode (the
/// station is done for this iteration, nothing is published), or an
/// exhausted budget.
#[derive(Debug, PartialEq)]
pub enum StationOutcome {
    Published(ObservationResponse),
    NoData,
    BadPayload,
    Exhausted,
}

/// The model of a station outcome.
pub ghost enum StationOutcomeV {
    Published(ObservationResponseV),
    NoData,
    BadPayload,
    Exhausted,
}

impl View for StationOutcome {
    type V = StationOutcomeV;

    open spec fn view(&self) -> StationOutcomeV {
        match self {
            StationOutcome::Published(r) => StationOutcomeV::Published(r@),
            StationOutcome::NoData => StationOutcomeV::NoData,
            StationOutcome::BadPayload => StationOutcomeV::BadPayload,
            StationOutcome::Exhausted => StationOutcomeV::Exhausted,
        }
    }
}

/// The response a single attempt publishes, if any: a body that parses
/// and decodes.
pub open spec fn spec_attempt_published(e: FetchOutcomeV) -> Option<ObservationResponseV> {
    match e {
        FetchOutcomeV::Body(t) => match json_of_text(t) {
            Some(j) => spec_decode_response(j),
            None => None,
        },
        _ => None,
    }
}

/// How the retry loop ends for one station, given the outcomes of its
/// attempts in order and the retry budget. A failure consumes one
/// attempt; every other outcome ends the loop at once.
pub open spec fn spec_station_result(events: Seq<FetchOutcomeV>, budget: nat) -> StationOutcomeV
    decreases budget,
{
    if budget == 0 || events.len() == 0 {
        StationOutcomeV::Exhausted
    } else {
        match events[0] {
            FetchOutcomeV::Failed => spec_station_result(events.drop_first(), (budget - 1) as nat),
            FetchOutcomeV::NoResult => StationOutcomeV::NoData,
            FetchOutcomeV::Body(_) => match spec_attempt_published(events[0]) {
                Some(r) => StationOutcomeV::Published(r),
                None => StationOutcomeV::BadPayload,
            },
        }
    }
}

/// How many attempts the retry loop consumes.
pub open spec fn spec_station_attempts(events: Seq<FetchOutcomeV>, budget: nat) -> nat
    decreases budget,
{
    if budget == 0 || events.len() == 0 {
        0
    } else {
        match events[0] {
            FetchOutcomeV::Failed => 1 + spec_station_attempts(
                events.drop_first(),
                (budget - 1) as nat,
            ),
            _ => 1,
        }
    }
}

/// The model of a transcript of fetch outcomes.
pub open spec fn view_events(events: Seq<FetchOutcome>) -> Seq<FetchOutcomeV> {
    events.map_values(|e: FetchOutcome| e@)
}

/// Run the bounded-retry policy for one station over a transcript of
/// fetch outcomes: the outcome of the loop, and how many attempts it
/// consumed. A transcript shorter than the loop needs counts as
/// exhaustion.
pub fn process_station(events: &Vec<FetchOutcome>, budget: u64) -> (r: (StationOutcome, usize))
    ensures
        r.0@ == spec_station_result(view_events(events@), budget as nat),
        r.1 == spec_station_attempts(view_events(events@), budget as nat),
{
    let n = events.len();
    let mut i: usize = 0;
    let mut left: u64 = budget;
    proof {
        assert(view_events(events@).skip(0) =~= view_events(events@));
    }
    loop
        invariant
            n == events@.len(),
            0 <= i <= n,
            left <= budget,
            i <= budget - left,
            budget - left == i,
            spec_station_result(view_events(events@), budget as nat) == spec_station_result(
                view_events(events@).skip(i as int),
                left as nat,
            ),
            spec_station_attempts(view_events(events@), budget as nat) == i
                + spec_station_attempts(view_events(events@).skip(i as int), left as nat),
        decreases left,
    {
        let ghost m = view_events(events@);
        if left == 0 || i >= n {
            proof {
                assert(m.skip(i as int).len() == 0 || left == 0);
            }
            return (StationOutcome::Exhausted, i);
        }
        proof {
            assert(m.skip(i as int)[0] == m[i as int]);
        }
        match &events[i] {
            FetchOutcome::Failed => {
                proof {
                    assert(m.skip(i as int).drop_first() =~= m.skip(i + 1));
                }
                i = i + 1;
                left = left - 1;
            },
            FetchOutcome::NoResult => {
                return (StationOutcome::NoData, i + 1);
            },
            FetchOutcome::Body(text) => {
                match decode_current_body(text.as_str()) {
                    Ok(resp) => {
                        return (StationOutcome::Published(resp), i + 1);
                    },
                    Err(_) => {
                        return (StationOutcome::BadPayload, i + 1);
                    },
                }
            },
        }
    }
}

/// A station that fails `k` times and then answers with a decodable body
/// within its budget is reported as published after exactly `k + 1`
/// attempts: the loop retries past every transient failure and stops on
/// the first success.
pub proof fn lemma_retry_succeeds_after_failures(
    events: Seq<FetchOutcomeV>,
    budget: nat,
    k: int,
    r: ObservationResponseV,
)
    requires
        0 <= k < budget,
        k < events.len(),
        forall|j: int| 0 <= j < k ==> events[j] is Failed,
        spec_attempt_published(events[k]) == Some(r),
    ensures
        spec_station_result(events, budget) == StationOutcomeV::Published(r),
        spec_station_attempts(events, budget) == k + 1,
    decreases k,
{
    if k == 0 {
        assert(events[0] is Body);
    } else {
        assert(events[0] is Failed);
        lemma_retry_succeeds_after_failures(events.drop_first(), (budget - 1) as nat, k - 1, r);
    }
}

/// A no-result answer ends the retry loop for its station at once: one
/// attempt is made, nothing is published, and no failure is recorded.
pub proof fn lemma_no_result_short_circuit(events: Seq<FetchOutcomeV>, budget: nat)
    requires
        budget > 0,
        events.len() > 0,
        events[0] is NoResult,
    ensures
        spec_station_result(events, budget) == StationOutcomeV::NoData,
        spec_station_attempts(events, budget) == 1,
{
}

/// What an iteration over the stations from position `i` on yields: the
/// publications, in station order, and whether a station exhausted its
/// budget and aborted the iteration there.
pub open spec fn spec_iterate_from(
    stations: Seq<Seq<char>>,
    transcripts: Seq<Seq<FetchOutcomeV>>,
    budget: nat,
    i: int,
) -> (Seq<(Seq<char>, ObservationResponseV)>, bool)
    decreases stations.len() - i,
{
    if i < 0 || i >= stations.len() {
        (Seq::empty(), false)
    } else {
        match spec_station_result(transcripts[i], budget) {
            StationOutcomeV::Exhausted => (Seq::empty(), true),
            StationOutcomeV::Published(r) => {
                let rest = spec_iterate_from(stations, transcripts, budget, i + 1);
                (seq![(stations[i], r)] + rest.0, rest.1)
            },
            _ => spec_iterate_from(stations, transcripts, budget, i + 1),
        }
    }
}

/// The model of the station list.
pub open spec fn view_stations(stations: Seq<String>) -> Seq<Seq<char>> {
    stations.map_values(|s: String| s@)
}

/// The model of the per-station transcripts.
pub open spec fn view_transcripts(trs: Seq<Vec<FetchOutcome>>) -> Seq<Seq<FetchOutcomeV>> {
    trs.map_values(|t: Vec<FetchOutcome>| view_events(t@))
}

/// One pass of the poll loop over every station, with a transcript of
/// fetch outcomes per station: each station runs its bounded retry; a
/// published response is collected; an exhausted budget aborts the whole
/// pass with `TooManyRetry`, keeping what was already published.
pub fn iterate_stations(
    stations: &Vec<String>,
    transcripts: &Vec<Vec<FetchOutcome>>,
    budget: u64,
) -> (r: (Vec<(String, ObservationResponse)>, Result<(), Error>))
    requires
        stations@.len() == transcripts@.len(),
    ensures
        ({
            let s = spec_iterate_from(
                view_stations(stations@),
                view_transcripts(transcripts@),
                budget as nat,
                0,
            );
            &&& r.0@.map_values(|p: (String, ObservationResponse)| (p.0@, p.1@)) == s.0
            &&& (r.1 matches Err(e) ==> e is TooManyRetry)
            &&& (r.1 is Err <==> s.1)
        }),
{
    let ghost sv = view_stations(stations@);
    let ghost tv = view_transcripts(transcripts@);
    let n = stations.len();
    let mut pubs: Vec<(String, ObservationResponse)> = Vec::new();
    let mut i: usize = 0;
    while i < n
        invariant
            n == stations@.len(),
            n == transcripts@.len(),
            sv == view_stations(stations@),
            tv == view_transcripts(transcripts@),
            0 <= i <= n,
            spec_iterate_from(sv, tv, budget as nat, 0).1 == spec_iterate_from(
                sv,
                tv,
                budget as nat,
                i as int,
            ).1,
            spec_iterate_from(sv, tv, budget as nat, 0).0 =~= pubs@.map_values(
                |p: (String, ObservationResponse)| (p.0@, p.1@),
            ) + spec_iterate_from(sv, tv, budget as nat, i as int).0,
        decreases n - i,
    {
        let (outcome, _used) = process_station(&transcripts[i], budget);
        proof {
            assert(tv[i as int] == view_events(transcripts@[i as int]@));
            assert(sv[i as int] == stations@[i as int]@);
        }
        match outcome {
            StationOutcome::Exhausted => {
                proof {
                    let full = spec_iterate_from(sv, tv, budget as nat, 0);
                    let here = spec_iterate_from(sv, tv, budget as nat, i as int);
                    assert(here.0 =~= Seq::empty());
                    assert(full.0 =~= pubs@.map_values(
                        |p: (String, ObservationResponse)| (p.0@, p.1@),
                    ));
                }
                return (pubs, Err(Error::TooManyRetry));
            },
            StationOutcome::Published(resp) => {
                let name = stations[i].clone();
                pubs.push((name, resp));
                proof {
                    let mapped = pubs@.map_values(|p: (String, ObservationResponse)| (p.0@, p.1@));
                    assert(mapped =~= mapped.drop_last().push((sv[i as int], pubs@.last().1@)));
                    assert(spec_iterate_from(sv, tv, budget as nat, i as int).0 =~= seq![
                        (sv[i as int], pubs@.last().1@),
                    ] + spec_iterate_from(sv, tv, budget as nat, i + 1).0);
                    assert(spec_iterate_from(sv, tv, budget as nat, 0).0 =~= mapped
                        + spec_iterate_from(sv, tv, budget as nat, i + 1).0);
                }
                i = i + 1;
            },
            _ => {
                i = i + 1;
            },
        }
    }
    proof {
        assert(spec_iterate_from(sv, tv, budget as nat, i as int).0 =~= Seq::empty());
        assert(spec_iterate_from(sv, tv, budget as nat, 0).0 =~= pubs@.map_values(
            |p: (String, ObservationResponse)| (p.0@, p.1@),
        ));
    }
    (pubs, Ok(()))
}

} // verus!
