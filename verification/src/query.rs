//! Building the request path and query string for an observation request.

use vstd::prelude::*;
use vstd::string::StringExecFns;
use crate::num::{pad2_string, pad4_string, spec_pad2, spec_pad4};

verus! {

/// Wire format requested from the API.
#[derive(Debug, Clone, Copy, PartialEq, Eq, Structural)]
pub enum Format {
    Json,
}

/// Which kind of reading a request asks for: the latest one, or a
/// historical range of a given granularity.
#[derive(Debug, Clone, Copy, PartialEq, Eq, Structural)]
pub enum History {
    Current,
    Hourly,
    Daily,
    All,
}

/// Numeric precision requested for the measurements.
#[derive(Debug, Clone, Copy, PartialEq, Eq, Structural)]
pub enum Precision {
    Integer,
    Decimal,
}

/// Unit system of the measurements.
#[derive(Debug, Clone, Copy, PartialEq, Eq, Structural)]
pub enum Unit {
    Imperial,
    Metric,
}

impl Format {
    /// The query-string name of the format.
    pub open spec fn spec_str(self) -> Seq<char> {
        "json"@
    }

    pub fn as_str(&self) -> (r: &'static str)
        ensures
            r@ == self.spec_str(),
    {
        match self {
            Format::Json => "json",
        }
    }
}

impl History {
    /// The name of the history mode as it appears in the URL.
    pub open spec fn spec_str(self) -> Seq<char> {
        match self {
            History::Current => "current"@,
            History::Hourly => "hourly"@,
            History::Daily => "daily"@,
            History::All => "all"@,
        }
    }

    pub fn as_str(&self) -> (r: &'static str)
        ensures
            r@ == self.spec_str(),
    {
        match self {
            History::Current => "current",
            History::Hourly => "hourly",
            History::Daily => "daily",
            History::All => "all",
        }
    }
}

impl Precision {
    /// The query-string name of the precision.
    pub open spec fn spec_str(self) -> Seq<char> {
        match self {
            Precision::Integer => "integer"@,
            Precision::Decimal => "decimal"@,
        }
    }

    pub fn as_str(&self) -> (r: &'static str)
        ensures
            r@ == self.spec_str(),
    {
        match self {
            Precision::Integer => "integer",
            Precision::Decimal => "decimal",
        }
    }
}

impl Unit {
    /// The one-letter flag the API uses for the unit system.
    pub open spec fn spec_str(self) -> Seq<char> {
        match self {
            Unit::Imperial => "e"@,
            Unit::Metric => "m"@,
        }
    }

    pub fn as_str(&self) -> (r: &'static str)
        ensures
            r@ == self.spec_str(),
    {
        match self {
            Unit::Imperial => "e",
            Unit::Metric => "m",
        }
    }

    /// Read the one-letter unit flag; anything else is rejected.
    pub fn parse(s: &str) -> (r: Result<Unit, crate::ParseUnitError>)
        ensures
            s@ == "e"@ ==> r == Ok::<Unit, crate::ParseUnitError>(Unit::Imperial),
            s@ == "m"@ ==> r == Ok::<Unit, crate::ParseUnitError>(Unit::Metric),
            s@ != "e"@ && s@ != "m"@ ==> r is Err,
    {
        proof {
            reveal_strlit("e");
            reveal_strlit("m");
        }
        let n = s.unicode_len();
        if n == 1 {
            let c = s.get_char(0);
            if c == 'e' {
                proof {
                    assert(s@ =~= "e"@);
                }
                return Ok(Unit::Imperial);
            }
            if c == 'm' {
                proof {
                    assert(s@ =~= "m"@);
                }
                return Ok(Unit::Metric);
            }
        }
        Err(crate::ParseUnitError)
    }
}

/// Character-for-character equality of two string slices.
pub fn str_eq(a: &str, b: &str) -> (r: bool)
    ensures
        r == (a@ == b@),
{
    let alen = a.unicode_len();
    let blen = b.unicode_len();
    if alen != blen {
        return false;
    }
    let mut i: usize = 0;
    while i < alen
        invariant
            alen == a@.len(),
            alen == b@.len(),
            0 <= i <= alen,
            forall|j: int| 0 <= j < i ==> a@[j] == b@[j],
        decreases alen - i,
    {
        if a.get_char(i) != b.get_char(i) {
            return false;
        }
        i = i + 1;
    }
    proof {
        assert(a@ =~= b@);
    }
    true
}

/// A calendar date, held as plain year, month and day numbers.
#[derive(Debug, Clone, Copy, PartialEq, Eq, Structural)]
pub struct Date {
    pub year: u16,
    pub month: u8,
    pub day: u8,
}

impl Date {
    /// The date fits the `YYYYMMDD` wire form and names a calendar day.
    pub open spec fn wf(self) -> bool {
        &&& self.year <= 9999
        &&& 1 <= self.month <= 12
        &&& 1 <= self.day <= 31
    }

    /// The eight characters `YYYYMMDD` of the date.
    pub open spec fn spec_chars(self) -> Seq<char> {
        spec_pad4(self.year as nat) + spec_pad2(self.month as nat) + spec_pad2(self.day as nat)
    }

    /// Print the date in the `YYYYMMDD` wire form.
    pub fn to_string(&self) -> (r: String)
        requires
            self.wf(),
        ensures
            r@ == self.spec_chars(),
    {
        let mut s = pad4_string(self.year as u64);
        let mm = pad2_string(self.month as u64);
        s.append(mm.as_str());
        let dd = pad2_string(self.day as u64);
        s.append(dd.as_str());
        proof {
            assert(s@ =~= self.spec_chars());
        }
        s
    }
}

/// The options of one observation request.
#[derive(Debug, Clone, Copy)]
pub struct ObservationArgs {
    pub format: Format,
    pub unit: Unit,
    pub history: History,
    pub precision: Precision,
    /// Calendar day of a historical request; a current request carries none.
    pub date: Option<Date>,
}

impl ObservationArgs {
    /// A date is given exactly when the request is historical, and it is
    /// a well-formed calendar date.
    pub open spec fn valid(self) -> bool {
        &&& (self.history is Current <==> self.date is None)
        &&& (self.date matches Some(d) ==> d.wf())
    }
}

impl Default for ObservationArgs {
    /// The default request: current metric observations in JSON, at
    /// decimal precision.
    fn default() -> (r: Self)
        ensures
            r.format is Json,
            r.unit is Metric,
            r.history is Current,
            r.precision is Decimal,
            r.date is None,
            r.valid(),
    {
        Self {
            unit: Unit::Metric,
            format: Format::Json,
            history: History::Current,
            precision: Precision::Decimal,
            date: None,
        }
    }
}

/// The URL path segment selected by the history mode.
pub open spec fn spec_path(h: History) -> Seq<char> {
    if h is Current {
        "observations/current"@
    } else {
        "history/"@ + h.spec_str()
    }
}

/// The ordered query parameters of a request, as name/value pairs.
pub open spec fn spec_params(args: ObservationArgs, key: Seq<char>, sid: Seq<char>) -> Seq<
    (Seq<char>, Seq<char>),
> {
    let base = seq![
        ("apiKey"@, key),
        ("stationId"@, sid),
        ("units"@, args.unit.spec_str()),
        ("format"@, args.format.spec_str()),
    ];
    let with_precision = if args.precision is Decimal {
        base.push(("numericPrecision"@, "decimal"@))
    } else {
        base
    };
    match args.date {
        Some(d) => with_precision.push(("date"@, d.spec_chars())),
        None => with_precision,
    }
}

/// Name/value pairs joined as `name=value`, separated by `&`.
pub open spec fn spec_join_params(ps: Seq<(Seq<char>, Seq<char>)>) -> Seq<char>
    decreases ps.len(),
{
    if ps.len() == 0 {
        Seq::empty()
    } else if ps.len() == 1 {
        ps.last().0 + "="@ + ps.last().1
    } else {
        spec_join_params(ps.drop_last()) + "&"@ + ps.last().0 + "="@ + ps.last().1
    }
}

/// The whole request path and query string of a request.
pub open spec fn spec_query(args: ObservationArgs, key: Seq<char>, sid: Seq<char>) -> Seq<char> {
    spec_path(args.history) + "?"@ + spec_join_params(spec_params(args, key, sid))
}

impl ObservationArgs {
    /// Build the request path and query string for a station: the path
    /// segment of the history mode, then `apiKey`, `stationId`, `units`
    /// and `format`, then `numericPrecision=decimal` when decimal
    /// precision is asked for, then `date=YYYYMMDD` for a historical
    /// request.
    #[verifier::rlimit(60)]
    pub fn build_query(&self, api_key: &str, station_id: &str) -> (r: String)
        requires
            self.date matches Some(d) ==> d.wf(),
        ensures
            r@ == spec_query(*self, api_key@, station_id@),
    {
        let mut q: String = match self.history {
            History::Current => "observations/current".to_owned(),
            _ => {
                let mut p = "history/".to_owned();
                p.append(self.history.as_str());
                p
            },
        };
        q.append("?apiKey=");
        q.append(api_key);
        q.append("&stationId=");
        q.append(station_id);
        q.append("&units=");
        q.append(self.unit.as_str());
        q.append("&format=");
        q.append(self.format.as_str());
        if self.precision == Precision::Decimal {
            q.append("&numericPrecision=decimal");
        }
        match &self.date {
            Some(d) => {
                q.append("&date=");
                let ds = d.to_string();
                q.append(ds.as_str());
            },
            None => {},
        }
        proof {
            reveal_strlit("?apiKey=");
            reveal_strlit("?");
            reveal_strlit("apiKey=");
            lemma_query_shape(*self, api_key@, station_id@);
            assert("?apiKey="@ =~= "?"@ + "apiKey="@);
            assert(q@ =~= spec_query(*self, api_key@, station_id@));
        }
        q
    }
}

/// Unfolds the joined query string into its flat concatenation, for each
/// shape of options.
proof fn lemma_query_shape(args: ObservationArgs, key: Seq<char>, sid: Seq<char>)
    ensures
        spec_join_params(spec_params(args, key, sid)) =~= "apiKey="@ + key + "&stationId="@ + sid
            + "&units="@ + args.unit.spec_str() + "&format="@ + args.format.spec_str() + (
        if args.precision is Decimal {
            "&numericPrecision=decimal"@
        } else {
            Seq::<char>::empty()
        }) + (match args.date {
            Some(d) => "&date="@ + d.spec_chars(),
            None => Seq::<char>::empty(),
        }),
{
    reveal_strlit("apiKey=");
    reveal_strlit("apiKey");
    reveal_strlit("=");
    reveal_strlit("&");
    reveal_strlit("&stationId=");
    reveal_strlit("stationId");
    reveal_strlit("&units=");
    reveal_strlit("units");
    reveal_strlit("&format=");
    reveal_strlit("format");
    reveal_strlit("numericPrecision");
    reveal_strlit("decimal");
    reveal_strlit("&numericPrecision=decimal");
    reveal_strlit("date");
    reveal_strlit("&date=");
    let u = args.unit.spec_str();
    let f = args.format.spec_str();
    let p1 = seq![("apiKey"@, key)];
    let p2 = p1.push(("stationId"@, sid));
    let p3 = p2.push(("units"@, u));
    let base = p3.push(("format"@, f));
    assert(spec_join_params(p1) =~= "apiKey="@ + key);
    assert(p2.drop_last() =~= p1);
    assert(spec_join_params(p2) =~= spec_join_params(p1) + "&"@ + "stationId"@ + "="@ + sid);
    assert(spec_join_params(p2) =~= "apiKey="@ + key + "&stationId="@ + sid);
    assert(p3.drop_last() =~= p2);
    assert(spec_join_params(p3) =~= spec_join_params(p2) + "&"@ + "units"@ + "="@ + u);
    assert(spec_join_params(p3) =~= "apiKey="@ + key + "&stationId="@ + sid + "&units="@ + u);
    assert(base.drop_last() =~= p3);
    assert(spec_join_params(base) =~= spec_join_params(p3) + "&"@ + "format"@ + "="@ + f);
    let jbase = "apiKey="@ + key + "&stationId="@ + sid + "&units="@ + u + "&format="@ + f;
    assert(spec_join_params(base) =~= jbase);
    let wp = if args.precision is Decimal {
        base.push(("numericPrecision"@, "decimal"@))
    } else {
        base
    };
    if args.precision is Decimal {
        assert(wp.drop_last() =~= base);
        assert(spec_join_params(wp) =~= spec_join_params(base) + "&"@ + "numericPrecision"@ + "="@
            + "decimal"@);
        assert(spec_join_params(wp) =~= jbase + "&numericPrecision=decimal"@);
    }
    let jwp = jbase + (if args.precision is Decimal {
        "&numericPrecision=decimal"@
    } else {
        Seq::<char>::empty()
    });
    assert(spec_join_params(wp) =~= jwp);
    match args.date {
        Some(d) => {
            let wd = wp.push(("date"@, d.spec_chars()));
            assert(spec_params(args, key, sid) =~= wd);
            assert(wd.drop_last() =~= wp);
            assert(spec_join_params(wd) =~= spec_join_params(wp) + "&"@ + "date"@ + "="@
                + d.spec_chars());
            assert(spec_join_params(wd) =~= jwp + "&date="@ + d.spec_chars());
        },
        None => {
            assert(spec_params(args, key, sid) =~= wp);
        },
    }
}

/// Every request carries `apiKey`, `stationId`, `units` and `format`
/// exactly once; `numericPrecision=decimal` stands in the query exactly
/// when decimal precision is asked for; `date=YYYYMMDD` stands in it
/// exactly when the request is historical; and no parameter name repeats.
pub proof fn lemma_query_parameters(args: ObservationArgs, key: Seq<char>, sid: Seq<char>)
    requires
        args.valid(),
    ensures
        spec_params(args, key, sid).len() == 4 + (if args.precision is Decimal {
            1int
        } else {
            0int
        }) + (if args.history is Current {
            0int
        } else {
            1int
        }),
        spec_params(args, key, sid)[0] == ("apiKey"@, key),
        spec_params(args, key, sid)[1] == ("stationId"@, sid),
        spec_params(args, key, sid)[2] == ("units"@, args.unit.spec_str()),
        spec_params(args, key, sid)[3] == ("format"@, args.format.spec_str()),
        forall|i: int, j: int|
            0 <= i < j < spec_params(args, key, sid).len() ==> #[trigger] spec_params(
                args,
                key,
                sid,
            )[i].0 != #[trigger] spec_params(args, key, sid)[j].0,
        (exists|i: int|
            0 <= i < spec_params(args, key, sid).len() && #[trigger] spec_params(args, key, sid)[i]
                == ("numericPrecision"@, "decimal"@)) <==> args.precision is Decimal,
        (args.date matches Some(d) ==> exists|i: int|
            0 <= i < spec_params(args, key, sid).len() && #[trigger] spec_params(args, key, sid)[i]
                == ("date"@, d.spec_chars())),
        (exists|i: int|
            0 <= i < spec_params(args, key, sid).len() && #[trigger] spec_params(args, key, sid)[i].0
                == "date"@) <==> !(args.history is Current),
{
    reveal_strlit("apiKey");
    reveal_strlit("stationId");
    reveal_strlit("units");
    reveal_strlit("format");
    reveal_strlit("numericPrecision");
    reveal_strlit("date");
    let ps = spec_params(args, key, sid);
    assert("apiKey"@.len() == 6);
    assert("stationId"@.len() == 9);
    assert("units"@.len() == 5);
    assert("format"@.len() == 6);
    assert("numericPrecision"@.len() == 16);
    assert("date"@.len() == 4);
    assert("apiKey"@[0] == 'a' && "format"@[0] == 'f');
    if args.precision is Decimal {
        assert(ps[4] == ("numericPrecision"@, "decimal"@));
    } else {
        assert(forall|i: int| 0 <= i < ps.len() ==> #[trigger] ps[i].0 != "numericPrecision"@);
    }
    match args.date {
        Some(d) => {
            assert(ps[ps.len() - 1] == ("date"@, d.spec_chars()));
            assert(ps[ps.len() - 1].0 == "date"@);
        },
        None => {
            assert(forall|i: int| 0 <= i < ps.len() ==> #[trigger] ps[i].0 != "date"@);
        },
    }
    assert(forall|i: int, j: int|
        0 <= i < j < ps.len() ==> #[trigger] ps[i].0 != #[trigger] ps[j].0);
}

} // verus!
