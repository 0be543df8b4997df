//! Classification of a raw command-line string into a local filesystem path
//! or a remote object locator of the form `gs://bucket[/object]`.
//!
//! A string that does not begin with the remote scheme is a local path and is
//! kept unchanged. A string that does is split into an authority (the bucket)
//! and an optional object name, and both parts are held to the remote store's
//! naming rules at parse time, so that a well-formed [`GsUrl`] always carries
//! conforming names.

use vstd::prelude::*;
use vstd::utf8::encode_utf8;

use crate::errors::ParseError;

verus! {

/// Holds exactly when `s` begins with the remote scheme `gs://`.
pub open spec fn has_remote_scheme(s: Seq<char>) -> bool {
    s.len() >= 5 && s.subrange(0, 5) == "gs://"@
}

/// The index of the first `/` in `s`, or `s.len()` when there is none.
pub open spec fn first_slash(s: Seq<char>) -> int
    decreases s.len(),
{
    if s.len() == 0 {
        0
    } else if s[0] == '/' {
        0
    } else {
        1 + first_slash(s.subrange(1, s.len() as int))
    }
}

/// The part of a remote locator after the scheme.
pub open spec fn rest_of(raw: Seq<char>) -> Seq<char> {
    raw.subrange(5, raw.len() as int)
}

/// The authority (bucket) part of a remote locator: everything after the
/// scheme up to the first `/`, or to the end when there is none.
pub open spec fn authority_of(raw: Seq<char>) -> Seq<char> {
    rest_of(raw).subrange(0, first_slash(rest_of(raw)))
}

/// The object part of a remote locator: everything after the slash that ends
/// the authority. `None` when there is no slash or nothing follows it.
pub open spec fn object_part_of(raw: Seq<char>) -> Option<Seq<char>> {
    let rest = rest_of(raw);
    let i = first_slash(rest);
    if i + 1 < rest.len() {
        Some(rest.subrange(i + 1, rest.len() as int))
    } else {
        None
    }
}

/// Whether `c` may appear in a bucket name at a position that is the first
/// (`first`) or the last (`last`) of the name: lowercase ASCII letters and
/// digits anywhere, and `-`, `_`, `.` only in the interior.
pub open spec fn bucket_char_ok(c: char, first: bool, last: bool) -> bool {
    ||| 97 <= c as u32 && c as u32 <= 122
    ||| 48 <= c as u32 && c as u32 <= 57
    ||| (c == '-' || c == '_' || c == '.') && !first && !last
}

/// Holds exactly when `p` occurs in `s` starting at index `i`.
pub open spec fn contains_at(s: Seq<char>, p: Seq<char>, i: int) -> bool {
    0 <= i && i + p.len() <= s.len() && s.subrange(i, i + p.len()) == p
}

/// Holds exactly when `p` occurs somewhere in `s`.
pub open spec fn contains_seq(s: Seq<char>, p: Seq<char>) -> bool {
    exists|i: int| contains_at(s, p, i)
}

/// The remote store's bucket naming rules: 3 to 63 characters, lowercase
/// letters, digits and interior `-`, `_`, `.`, not beginning with `goog` and
/// containing neither `google` nor the misspelling `g00gle`.
pub open spec fn valid_bucket(b: Seq<char>) -> bool {
    &&& 3 <= b.len() <= 63
    &&& forall|i: int| 0 <= i < b.len() ==> bucket_char_ok(#[trigger] b[i], i == 0, i == b.len() - 1)
    &&& !(b.len() >= 4 && b.subrange(0, 4) == "goog"@)
    &&& !contains_seq(b, "google"@)
    &&& !contains_seq(b, "g00gle"@)
}

/// Whether `c` may appear in an object name: everything except carriage
/// return, line feed, the wildcard characters `#`, `[`, `]`, `*`, `?`, and
/// the control characters `U+007F`–`U+0084` and `U+0086`–`U+009F`.
pub open spec fn object_char_ok(c: char) -> bool {
    !(c == '\r' || c == '\n' || c == '#' || c == '[' || c == ']' || c == '*' || c == '?' || (0x7F
        <= c as u32 && c as u32 <= 0x84) || (0x86 <= c as u32 && c as u32 <= 0x9F))
}

/// The remote store's object naming rules: 1 to 1024 bytes when UTF-8
/// encoded, not `.` or `...`, no forbidden characters, and not beginning
/// with `.well-known/acme-challenge`.
pub open spec fn valid_object(name: Seq<char>) -> bool {
    &&& 1 <= encode_utf8(name).len() <= 1024
    &&& name != seq!['.']
    &&& name != seq!['.', '.', '.']
    &&& forall|i: int| 0 <= i < name.len() ==> object_char_ok(#[trigger] name[i])
    &&& !(name.len() >= 26 && name.subrange(0, 26) == ".well-known/acme-challenge"@)
}

/// A remote object locator: a bucket and an optional object name. The object
/// is `None` when the locator names only a bucket.
#[derive(Debug)]
pub struct GsUrl {
    pub bucket: String,
    pub object: Option<String>,
}

impl GsUrl {
    /// Well-formedness: both names conform to the remote store's rules.
    pub open spec fn wf(&self) -> bool {
        &&& valid_bucket(self.bucket@)
        &&& self.object matches Some(o) ==> valid_object(o@)
    }

    /// The object name as a sequence of characters, when one is present.
    pub open spec fn object_view(&self) -> Option<Seq<char>> {
        match self.object {
            Some(o) => Some(o@),
            None => None,
        }
    }

    /// The bucket name.
    pub fn bucket(&self) -> (r: &str)
        ensures
            r@ == self.bucket@,
    {
        self.bucket.as_str()
    }

    /// The object name, when the locator carries one.
    pub fn object(&self) -> (r: Option<&String>)
        ensures
            r is Some <==> self.object is Some,
            r matches Some(o) ==> o@ == self.object->Some_0@,
    {
        self.object.as_ref()
    }
}

/// A classified command-line path argument: either a remote object locator
/// or a local filesystem path kept as an opaque string.
#[derive(Debug)]
pub enum DataPath {
    Gs(GsUrl),
    File(String),
}

impl DataPath {
    /// Whether this path lies on the local filesystem.
    pub fn is_file(&self) -> (r: bool)
        ensures
            r == (*self is File),
    {
        if let DataPath::File(_) = self {
            true
        } else {
            false
        }
    }

    /// Classifies a raw string, as [`classify`] does.
    pub fn try_from(s: String) -> (r: Result<DataPath, ParseError>)
        ensures
            classified(s@, r),
    {
        classify(s)
    }
}

/// What [`classify`] returns for the input `raw`: a local path is wrapped
/// unchanged; a remote locator is split at the first slash after the scheme
/// into a bucket and an optional object name, and both are validated.
pub open spec fn classified(raw: Seq<char>, r: Result<DataPath, ParseError>) -> bool {
    &&& !has_remote_scheme(raw) ==> (r matches Ok(dp) && dp matches DataPath::File(p) && p@ == raw)
    &&& has_remote_scheme(raw) && authority_of(raw).len() == 0 ==> r == Err::<
        DataPath,
        ParseError,
    >(ParseError::InvalidUrl)
    &&& has_remote_scheme(raw) && authority_of(raw).len() > 0 && !valid_bucket(authority_of(raw))
        ==> r == Err::<DataPath, ParseError>(ParseError::InvalidLocator)
    &&& has_remote_scheme(raw) && valid_bucket(authority_of(raw)) && (object_part_of(raw) matches Some(
        o,
    ) && !valid_object(o)) ==> r == Err::<DataPath, ParseError>(ParseError::InvalidLocator)
    &&& has_remote_scheme(raw) && valid_bucket(authority_of(raw)) && (object_part_of(raw) is None
        || valid_object(object_part_of(raw)->Some_0)) ==> (r matches Ok(dp)
        && dp matches DataPath::Gs(g) && g.wf() && g.bucket@ == authority_of(raw) && (
    match object_part_of(raw) {
        Some(o) => g.object matches Some(go) && go@ == o,
        None => g.object is None,
    }))
}

/// Smallest index at which the loop in [`find_first_slash`] can stop is
/// exactly [`first_slash`].
proof fn lemma_first_slash_at(s: Seq<char>, i: int)
    requires
        0 <= i <= s.len(),
        forall|k: int| 0 <= k < i ==> s[k] != '/',
        i < s.len() ==> s[i] == '/',
    ensures
        first_slash(s) == i,
    decreases s.len(),
{
    if s.len() == 0 {
    } else if s[0] == '/' {
        assert(i == 0);
    } else {
        assert(i >= 1);
        let t = s.subrange(1, s.len() as int);
        assert(forall|k: int| 0 <= k < i - 1 ==> t[k] == s[k + 1] && t[k] != '/');
        lemma_first_slash_at(t, i - 1);
    }
}

/// The index of the first `/` in `s`, or its length when there is none.
fn find_first_slash(s: &str) -> (i: usize)
    ensures
        i as int == first_slash(s@),
        i <= s@.len(),
        forall|k: int| 0 <= k < i ==> s@[k] != '/',
        i < s@.len() ==> s@[i as int] == '/',
{
    let n = s.unicode_len();
    let mut i: usize = 0;
    while i < n
        invariant
            0 <= i <= n,
            n == s@.len(),
            forall|k: int| 0 <= k < i ==> s@[k] != '/',
        decreases n - i,
    {
        if s.get_char(i) == '/' {
            proof {
                lemma_first_slash_at(s@, i as int);
            }
            return i;
        }
        i += 1;
    }
    proof {
        lemma_first_slash_at(s@, n as int);
    }
    i
}

/// Whether `s` begins with `p`; `p` must be no longer than `s`.
fn starts_with_sub(s: &str, p: &str) -> (r: bool)
    requires
        p@.len() <= s@.len(),
    ensures
        r == (s@.subrange(0, p@.len() as int) == p@),
{
    let pn = p.unicode_len();
    let mut j: usize = 0;
    let mut matched = true;
    while j < pn
        invariant
            0 <= j <= pn,
            pn == p@.len() <= s@.len(),
            matched == (forall|k: int| 0 <= k < j ==> s@[k] == p@[k]),
        decreases pn - j,
    {
        if s.get_char(j) != p.get_char(j) {
            matched = false;
        } else {
            proof {
                if matched {
                    assert(forall|k: int| 0 <= k < j + 1 ==> s@[k] == p@[k]);
                }
            }
        }
        j += 1;
    }
    proof {
        if matched {
            assert(s@.subrange(0, pn as int) =~= p@);
        } else {
            let w = choose|k: int| 0 <= k < pn && s@[k] != p@[k];
            assert(s@.subrange(0, pn as int)[w] == s@[w]);
        }
    }
    matched
}

/// Whether `p` occurs anywhere in `s`.
fn contains_sub(s: &str, p: &str) -> (r: bool)
    ensures
        r == contains_seq(s@, p@),
{
    let sn = s.unicode_len();
    let pn = p.unicode_len();
    if pn > sn {
        proof {
            assert(!contains_seq(s@, p@)) by {
                if contains_seq(s@, p@) {
                    let w = choose|i: int| contains_at(s@, p@, i);
                }
            }
        }
        return false;
    }
    let mut i: usize = 0;
    while i <= sn - pn
        invariant
            pn <= sn,
            sn == s@.len(),
            pn == p@.len(),
            0 <= i <= sn - pn + 1,
            forall|ii: int| 0 <= ii < i ==> !contains_at(s@, p@, ii),
        decreases sn - pn - i + 1,
    {
        let mut j: usize = 0;
        let mut matched = true;
        while j < pn
            invariant
                0 <= j <= pn,
                i + pn <= sn,
                sn == s@.len(),
                pn == p@.len(),
                matched == (forall|k: int| 0 <= k < j ==> s@[i + k] == p@[k]),
            decreases pn - j,
        {
            if s.get_char(i + j) != p.get_char(j) {
                matched = false;
            } else {
                proof {
                    if matched {
                        assert(forall|k: int| 0 <= k < j + 1 ==> s@[i + k] == p@[k]);
                    }
                }
            }
            j += 1;
        }
        if matched {
            proof {
                assert(s@.subrange(i as int, i as int + pn as int) =~= p@);
                assert(contains_at(s@, p@, i as int));
            }
            return true;
        }
        proof {
            if contains_at(s@, p@, i as int) {
                assert forall|k: int| 0 <= k < pn implies s@[i + k] == p@[k] by {
                    assert(s@.subrange(i as int, i as int + pn as int)[k] == s@[i + k]);
                }
            }
        }
        i += 1;
    }
    proof {
        assert(!contains_seq(s@, p@)) by {
            if contains_seq(s@, p@) {
                let w = choose|ii: int| contains_at(s@, p@, ii);
                assert(!contains_at(s@, p@, w));
            }
        }
    }
    false
}

/// Whether `b` conforms to the bucket naming rules of [`valid_bucket`].
fn check_bucket(b: &str) -> (r: bool)
    ensures
        r == valid_bucket(b@),
{
    let n = b.unicode_len();
    if n < 3 || n > 63 {
        return false;
    }
    let mut i: usize = 0;
    while i < n
        invariant
            3 <= n <= 63,
            n == b@.len(),
            0 <= i <= n,
            forall|k: int|
                0 <= k < i ==> bucket_char_ok(#[trigger] b@[k], k == 0, k == n as int - 1),
        decreases n - i,
    {
        let c = b.get_char(i);
        let u = c as u32;
        let alnum = (97 <= u && u <= 122) || (48 <= u && u <= 57);
        let punct = c == '-' || c == '_' || c == '.';
        if !(alnum || (punct && i > 0 && i + 1 < n)) {
            proof {
                assert(!bucket_char_ok(b@[i as int], i as int == 0, i as int == n as int - 1));
            }
            return false;
        }
        i += 1;
    }
    proof {
        reveal_strlit("goog");
    }
    if n >= 4 && starts_with_sub(b, "goog") {
        return false;
    }
    if contains_sub(b, "google") {
        return false;
    }
    if contains_sub(b, "g00gle") {
        return false;
    }
    true
}

/// Bounds on the length of a UTF-8 encoding: at least one and at most four
/// bytes for each character.
proof fn lemma_encode_utf8_len(s: Seq<char>)
    ensures
        s.len() <= encode_utf8(s).len() <= 4 * s.len(),
    decreases s.len(),
{
    if s.len() == 0 {
    } else {
        lemma_encode_utf8_len(s.drop_first());
        assert(1 <= vstd::utf8::encode_scalar(s[0] as u32).len() <= 4);
    }
}

/// Whether `t` conforms to the object naming rules of [`valid_object`].
fn check_object(t: &str) -> (r: bool)
    ensures
        r == valid_object(t@),
{
    let n = t.unicode_len();
    proof {
        lemma_encode_utf8_len(t@);
    }
    if n == 0 || n > 1024 {
        return false;
    }
    let bl = t.len();
    if bl > 1024 {
        return false;
    }
    if n == 1 && t.get_char(0) == '.' {
        proof {
            assert(t@ =~= seq!['.']);
        }
        return false;
    }
    if n == 3 && t.get_char(0) == '.' && t.get_char(1) == '.' && t.get_char(2) == '.' {
        proof {
            assert(t@ =~= seq!['.', '.', '.']);
        }
        return false;
    }
    let mut i: usize = 0;
    while i < n
        invariant
            n == t@.len(),
            0 <= i <= n,
            forall|k: int| 0 <= k < i ==> object_char_ok(#[trigger] t@[k]),
        decreases n - i,
    {
        let c = t.get_char(i);
        let u = c as u32;
        if c == '\r' || c == '\n' || c == '#' || c == '[' || c == ']' || c == '*' || c == '?' || (
        0x7F <= u && u <= 0x84) || (0x86 <= u && u <= 0x9F) {
            proof {
                assert(!object_char_ok(t@[i as int]));
            }
            return false;
        }
        i += 1;
    }
    proof {
        reveal_strlit(".well-known/acme-challenge");
        assert(".well-known/acme-challenge"@.len() == 26);
    }
    if n >= 26 && starts_with_sub(t, ".well-known/acme-challenge") {
        return false;
    }
    proof {
        if t@ == seq!['.'] {
            assert(t@.len() == 1 && t@[0] == '.');
        }
        if t@ == seq!['.', '.', '.'] {
            assert(t@.len() == 3 && t@[0] == '.' && t@[1] == '.' && t@[2] == '.');
        }
    }
    true
}

/// Parses a raw string into either a local path or a remote object locator.
///
/// A string without the remote scheme is a local path and is wrapped
/// unchanged, with no existence check. A string with the scheme is split at
/// the first slash after it; an empty authority fails as a malformed URL, a
/// non-conforming bucket or object name fails as a malformed locator.
pub fn classify(raw: String) -> (r: Result<DataPath, ParseError>)
    ensures
        classified(raw@, r),
{
    let n = raw.as_str().unicode_len();
    proof {
        reveal_strlit("gs://");
        assert("gs://"@.len() == 5);
    }
    if n < 5 || !starts_with_sub(raw.as_str(), "gs://") {
        return Ok(DataPath::File(raw));
    }
    let rest = raw.as_str().substring_char(5, n);
    proof {
        assert(rest@ == rest_of(raw@));
    }
    let rn = rest.unicode_len();
    let slash = find_first_slash(rest);
    if slash == 0 {
        return Err(ParseError::InvalidUrl);
    }
    let bucket_str = rest.substring_char(0, slash);
    proof {
        assert(bucket_str@ == authority_of(raw@));
    }
    if !check_bucket(bucket_str) {
        return Err(ParseError::InvalidLocator);
    }
    let mut object: Option<String> = None;
    if slash < rn {
        let tail = rest.substring_char(slash + 1, rn);
        if tail.unicode_len() > 0 {
            proof {
                assert(object_part_of(raw@) == Some(tail@));
            }
            if !check_object(tail) {
                return Err(ParseError::InvalidLocator);
            }
            object = Some(tail.to_owned());
        } else {
            proof {
                assert(object_part_of(raw@) is None);
            }
        }
    } else {
        proof {
            assert(object_part_of(raw@) is None);
        }
    }
    Ok(DataPath::Gs(GsUrl { bucket: bucket_str.to_owned(), object }))
}

} // verus!
