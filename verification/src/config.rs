//! The pure part of configuration loading: reading the station list out
//! of its comma-separated text form.

use vstd::prelude::*;
use vstd::string::StrSliceExecFns;
use vstd::string::StringExecFns;

verus! {

/// The position of the first comma at or after `i`, or the length of the
/// text when there is none.
pub open spec fn spec_comma_from(s: Seq<char>, i: int) -> int
    decreases s.len() - i,
{
    if i < 0 || i >= s.len() {
        s.len() as int
    } else if s[i] == ',' {
        i
    } else {
        spec_comma_from(s, i + 1)
    }
}

/// The first comma at or after a position lies between it and the end.
pub proof fn lemma_comma_from_bounds(s: Seq<char>, i: int)
    requires
        0 <= i <= s.len(),
    ensures
        i <= spec_comma_from(s, i) <= s.len(),
    decreases s.len() - i,
{
    if i < s.len() && s[i] != ',' {
        lemma_comma_from_bounds(s, i + 1);
    }
}

proof fn lemma_comma_from_found(s: Seq<char>, a: int, i: int)
    requires
        0 <= a <= i < s.len(),
        s[i] == ',',
        forall|j: int| a <= j < i ==> s[j] != ',',
    ensures
        spec_comma_from(s, a) == i,
    decreases i - a,
{
    if a < i {
        lemma_comma_from_found(s, a + 1, i);
    }
}

proof fn lemma_comma_from_none(s: Seq<char>, a: int)
    requires
        0 <= a <= s.len(),
        forall|j: int| a <= j < s.len() ==> s[j] != ',',
    ensures
        spec_comma_from(s, a) == s.len(),
    decreases s.len() - a,
{
    if a < s.len() {
        lemma_comma_from_none(s, a + 1);
    }
}

/// The comma-separated pieces of the text from position `a` on: one
/// piece per stretch between commas, empty pieces kept. (Out-of-range
/// positions yield nothing; the splitter starts at zero.)
pub open spec fn spec_split_from(s: Seq<char>, a: int) -> Seq<Seq<char>>
    decreases s.len() - a,
{
    if a < 0 || a > s.len() {
        Seq::empty()
    } else {
        let i = spec_comma_from(s, a);
        if i >= s.len() {
            seq![s.subrange(a, s.len() as int)]
        } else {
            proof {
                lemma_comma_from_bounds(s, a);
            }
            seq![s.subrange(a, i)] + spec_split_from(s, i + 1)
        }
    }
}

/// The comma-separated pieces of a text, in order. A text without a
/// comma is one piece, so the result is never empty.
pub open spec fn spec_split_commas(s: Seq<char>) -> Seq<Seq<char>> {
    spec_split_from(s, 0)
}

/// Split a comma-separated station list into its pieces.
pub fn split_stations(s: &str) -> (r: Vec<String>)
    ensures
        r@.map_values(|p: String| p@) == spec_split_commas(s@),
        r@.len() >= 1,
{
    let len = s.unicode_len();
    let mut out: Vec<String> = Vec::new();
    let mut start: usize = 0;
    let mut i: usize = 0;
    while i < len
        invariant
            len == s@.len(),
            0 <= start <= i <= len,
            forall|j: int| start <= j < i ==> s@[j] != ',',
            spec_split_from(s@, 0) =~= out@.map_values(|p: String| p@) + spec_split_from(
                s@,
                start as int,
            ),
        decreases len - i,
    {
        if s.get_char(i) == ',' {
            let piece = s.substring_char(start, i);
            out.push(piece.to_owned());
            proof {
                lemma_comma_from_found(s@, start as int, i as int);
                assert(out@.map_values(|p: String| p@) =~= out@.map_values(
                    |p: String| p@,
                ).drop_last().push(s@.subrange(start as int, i as int)));
            }
            start = i + 1;
        }
        i = i + 1;
    }
    let piece = s.substring_char(start, len);
    out.push(piece.to_owned());
    proof {
        lemma_comma_from_none(s@, start as int);
        assert(out@.map_values(|p: String| p@) =~= out@.map_values(
            |p: String| p@,
        ).drop_last().push(s@.subrange(start as int, len as int)));
        assert(spec_split_from(s@, 0) =~= out@.map_values(|p: String| p@));
    }
    out
}

} // verus!
