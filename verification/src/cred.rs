//! Extraction of the API credential from the bootstrap page, and the
//! store that caches it for the life of the process.

use vstd::prelude::*;
use vstd::string::StrSliceExecFns;
use vstd::string::StringExecFns;
use crate::Error;

verus! {

/// A character the credential token may consist of: lowercase ASCII
/// letters and digits.
pub open spec fn spec_is_key_char(c: char) -> bool {
    ||| 97 <= c as u32 <= 122  // 'a' ..= 'z'
    ||| 48 <= c as u32 <= 57  // '0' ..= '9'
}

/// Whether the marker `apiKey=` stands at position `i` of the page,
/// followed by at least one credential character.
pub open spec fn spec_match_at(s: Seq<char>, i: int) -> bool {
    &&& 0 <= i
    &&& i + 7 < s.len()
    &&& s.subrange(i, i + 7) == "apiKey="@
    &&& spec_is_key_char(s[i + 7])
}

/// The first position at or after `i` where the marker matches.
pub open spec fn spec_key_start(s: Seq<char>, i: nat) -> Option<nat>
    decreases s.len() - i,
{
    if i + 7 >= s.len() {
        None
    } else if spec_match_at(s, i as int) {
        Some(i)
    } else {
        spec_key_start(s, i + 1)
    }
}

/// The first position at or after `j` that does not hold a credential
/// character (or the end of the page).
pub open spec fn spec_key_end(s: Seq<char>, j: nat) -> nat
    decreases s.len() - j,
{
    if j >= s.len() {
        j
    } else if !spec_is_key_char(s[j as int]) {
        j
    } else {
        spec_key_end(s, j + 1)
    }
}

/// What credential a page carries: the maximal run of credential
/// characters after the first `apiKey=` marker that is followed by at
/// least one such character; nothing when no marker matches.
pub open spec fn spec_parse_api_key(s: Seq<char>) -> Option<Seq<char>> {
    match spec_key_start(s, 0) {
        Some(i) => Some(s.subrange(i + 7 as int, spec_key_end(s, i + 8) as int)),
        None => None,
    }
}

proof fn lemma_key_start_is_first(s: Seq<char>, k: nat, i: nat)
    requires
        k <= i,
        spec_match_at(s, i as int),
        forall|j: int| k <= j < i ==> !spec_match_at(s, j),
    ensures
        spec_key_start(s, k) == Some(i),
    decreases i - k,
{
    if k < i {
        lemma_key_start_is_first(s, k + 1, i);
    }
}

proof fn lemma_key_start_none(s: Seq<char>, k: nat)
    requires
        forall|j: int| k <= j ==> !spec_match_at(s, j),
    ensures
        spec_key_start(s, k) is None,
    decreases s.len() - k,
{
    if k + 7 < s.len() {
        lemma_key_start_none(s, k + 1);
    }
}

proof fn lemma_key_end_at(s: Seq<char>, j: nat, e: nat)
    requires
        j <= e <= s.len(),
        forall|x: int| j <= x < e ==> spec_is_key_char(#[trigger] s[x]),
        e == s.len() || !spec_is_key_char(s[e as int]),
    ensures
        spec_key_end(s, j) == e,
    decreases e - j,
{
    if j < e {
        lemma_key_end_at(s, j + 1, e);
    }
}

/// Whether the page holds a credential character at position `j`.
fn key_char_at(page: &str, j: usize) -> (r: bool)
    requires
        j < page@.len(),
    ensures
        r == spec_is_key_char(page@[j as int]),
{
    let c = page.get_char(j);
    let cv = c as u32;
    (97 <= cv && cv <= 122) || (48 <= cv && cv <= 57)
}

/// Whether the marker `apiKey=` stands at position `i`, with a credential
/// character after it.
fn match_at(page: &str, len: usize, i: usize) -> (r: bool)
    requires
        len == page@.len(),
        i < len,
    ensures
        r == spec_match_at(page@, i as int),
{
    proof {
        reveal_strlit("apiKey=");
    }
    if len - i < 8 {
        return false;
    }
    let marker: &str = "apiKey=";
    let mut k: usize = 0;
    while k < 7
        invariant
            len == page@.len(),
            i + 8 <= len,
            0 <= k <= 7,
            marker@ =~= "apiKey="@,
            marker@.len() == 7,
            forall|x: int| 0 <= x < k ==> page@[i + x] == marker@[x],
        decreases 7 - k,
    {
        if page.get_char(i + k) != marker.get_char(k) {
            proof {
                assert(page@.subrange(i as int, i + 7) != "apiKey="@) by {
                    assert(page@.subrange(i as int, i + 7)[k as int] == page@[i + k]);
                }
            }
            return false;
        }
        k = k + 1;
    }
    proof {
        assert(page@.subrange(i as int, i + 7) =~= "apiKey="@);
    }
    let c = page.get_char(i + 7);
    let cv = c as u32;
    (97 <= cv && cv <= 122) || (48 <= cv && cv <= 57)
}

/// Extract the API credential from the bootstrap page: the run of
/// lowercase letters and digits after the first `apiKey=` marker.
/// Fails with `ApiKeyNotFound` when no such marker is on the page.
pub fn parse_api_key(html: &str) -> (r: Result<String, Error>)
    ensures
        match r {
            Ok(t) => spec_parse_api_key(html@) == Some(t@),
            Err(e) => spec_parse_api_key(html@) is None && e is ApiKeyNotFound,
        },
{
    let len = html.unicode_len();
    let mut i: usize = 0;
    while i < len
        invariant
            len == html@.len(),
            0 <= i <= len,
            forall|j: int| 0 <= j < i ==> !spec_match_at(html@, j),
        decreases len - i,
    {
        if match_at(html, len, i) {
            let start = i + 7;
            let mut j = i + 8;
            while j < len && key_char_at(html, j)
                invariant
                    len == html@.len(),
                    spec_match_at(html@, i as int),
                    i + 8 <= j <= len,
                    forall|x: int| i + 8 <= x < j ==> spec_is_key_char(#[trigger] html@[x]),
                decreases len - j,
            {
                j = j + 1;
            }
            proof {
                lemma_key_start_is_first(html@, 0, i as nat);
                lemma_key_end_at(html@, (i + 8) as nat, j as nat);
            }
            let token = html.substring_char(start, j);
            return Ok(token.to_owned());
        }
        i = i + 1;
    }
    proof {
        assert(forall|j: int| 0 <= j ==> !spec_match_at(html@, j));
        lemma_key_start_none(html@, 0);
    }
    Err(Error::ApiKeyNotFound)
}

/// What one `get` on the credential store does, as a function of the
/// cached state and the fetched page: the pair of the state after the
/// call and the number of bootstrap fetches the call consumes.
pub open spec fn spec_get_step(key: Option<Seq<char>>, page: Seq<char>) -> (
    Option<Seq<char>>,
    nat,
) {
    match key {
        Some(k) => (Some(k), 0),
        None => (spec_parse_api_key(page), 1),
    }
}

/// The cached API credential of the process: empty until the first
/// request needs it, then populated once from the bootstrap page and
/// never refetched.
pub struct CredentialStore {
    key: Option<String>,
}

impl CredentialStore {
    /// The cached credential, if any.
    pub closed spec fn spec_key(self) -> Option<Seq<char>> {
        match self.key {
            Some(k) => Some(k@),
            None => None,
        }
    }

    /// A store that has not fetched anything yet.
    pub fn new() -> (s: Self)
        ensures
            s.spec_key() is None,
    {
        CredentialStore { key: None }
    }

    /// Whether the next `get` has to fetch the bootstrap page.
    pub fn needs_fetch(&self) -> (r: bool)
        ensures
            r == (self.spec_key() is None),
    {
        self.key.is_none()
    }

    /// The cached credential; consults nothing and changes nothing.
    pub fn cached(&self) -> (r: Option<String>)
        ensures
            match r {
                Some(k) => self.spec_key() == Some(k@),
                None => self.spec_key() is None,
            },
    {
        match &self.key {
            Some(k) => Some(k.clone()),
            None => None,
        }
    }

    /// Drop the cached credential, so that the next `get` bootstraps
    /// again: the recovery path when the upstream secret has rotated and
    /// the cached credential is rejected.
    pub fn invalidate(&mut self)
        ensures
            final(self).spec_key() is None,
    {
        self.key = None;
    }

    /// Consume the one fetched bootstrap page: extract the credential,
    /// cache it and hand it back. A page without the marker leaves the
    /// store empty, so a later `get` fetches again.
    pub fn store_fetched(&mut self, page: &str) -> (r: Result<String, Error>)
        requires
            old(self).spec_key() is None,
        ensures
            final(self).spec_key() == spec_get_step(old(self).spec_key(), page@).0,
            match r {
                Ok(k) => final(self).spec_key() == Some(k@) && spec_parse_api_key(page@) == Some(k@),
                Err(e) => final(self).spec_key() is None && spec_parse_api_key(page@) is None
                    && e is ApiKeyNotFound,
            },
    {
        match parse_api_key(page) {
            Ok(k) => {
                self.key = Some(k.clone());
                Ok(k)
            },
            Err(e) => Err(e),
        }
    }
}

/// A store bootstraps once: the first `get` on a fresh store consumes
/// exactly one fetched page, and after it has cached a credential, every
/// later `get`, whatever page might be offered, returns the same state
/// and consumes no fetch at all.
pub proof fn lemma_get_fetches_exactly_once(fresh: Option<Seq<char>>, page: Seq<char>, k: Seq<char>)
    requires
        fresh is None,
        spec_parse_api_key(page) == Some(k),
    ensures
        spec_get_step(fresh, page).0 == Some(k),
        spec_get_step(fresh, page).1 == 1,
        forall|p: Seq<char>| #[trigger] spec_get_step(spec_get_step(fresh, page).0, p) == (
            Some(k),
            0nat,
        ),
{
}

} // verus!
