use vstd::prelude::*;

verus! {

/// Characters that carry the Unicode `White_Space` property; these are the
/// characters that `char::is_whitespace` and `str::trim` treat as whitespace.
pub open spec fn is_space(c: char) -> bool {
    let u = c as u32;
    (0x09 <= u && u <= 0x0d) || u == 0x20 || u == 0x85 || u == 0xa0 || u == 0x1680 || (0x2000
        <= u && u <= 0x200a) || u == 0x2028 || u == 0x2029 || u == 0x202f || u == 0x205f || u
        == 0x3000
}

/// The position of the first non-space character at or after `i`, or the length.
pub open spec fn first_kept(s: Seq<char>, i: int) -> int
    decreases s.len() - i,
{
    if i >= s.len() || !is_space(s[i]) {
        i
    } else {
        first_kept(s, i + 1)
    }
}

/// The position just after the last non-space character at or before `j - 1`,
/// never below `lo`.
pub open spec fn last_kept(s: Seq<char>, lo: int, j: int) -> int
    decreases j - lo,
{
    if j <= lo || !is_space(s[j - 1]) {
        j
    } else {
        last_kept(s, lo, j - 1)
    }
}

/// `s` with leading and trailing whitespace removed.
pub open spec fn trimmed(s: Seq<char>) -> Seq<char> {
    let lo = first_kept(s, 0);
    s.subrange(lo, last_kept(s, lo, s.len() as int))
}

/// Where the machine identity may be read from one well-known location.
pub enum IdentitySource {
    /// Nothing exists at the location.
    Missing,
    /// Something exists there but could not be read.
    Unreadable,
    /// The full contents read from the location.
    Contents(String),
}

#[derive(Clone, Copy, Debug, PartialEq, Eq, Structural)]
pub enum IdentityError {
    /// Neither location yields an identity.
    Unavailable,
}

/// The identity chosen from the primary and the secondary location: the
/// primary wins whenever something exists there.
pub open spec fn chosen_identity(primary: IdentitySource, secondary: IdentitySource) -> Option<
    Seq<char>,
> {
    match primary {
        IdentitySource::Contents(s) => Some(s@),
        IdentitySource::Unreadable => None,
        IdentitySource::Missing => match secondary {
            IdentitySource::Contents(s) => Some(s@),
            _ => None,
        },
    }
}

/// Picks the machine identity from what was found at the primary and the
/// secondary location, keeping the contents exactly as read.
pub fn resolve_identity(primary: IdentitySource, secondary: IdentitySource) -> (r: Result<
    String,
    IdentityError,
>)
    ensures
        match chosen_identity(primary, secondary) {
            Some(s) => r is Ok && r->Ok_0@ == s,
            None => r == Err::<String, IdentityError>(IdentityError::Unavailable),
        },
{
    match primary {
        IdentitySource::Contents(s) => Ok(s),
        IdentitySource::Unreadable => Err(IdentityError::Unavailable),
        IdentitySource::Missing => match secondary {
            IdentitySource::Contents(s) => Ok(s),
            _ => Err(IdentityError::Unavailable),
        },
    }
}

/// Whether `c` is whitespace in the sense of `is_space`.
pub fn is_space_char(c: char) -> (r: bool)
    ensures
        r == is_space(c),
{
    let u = c as u32;
    (0x09 <= u && u <= 0x0d) || u == 0x20 || u == 0x85 || u == 0xa0 || u == 0x1680 || (0x2000
        <= u && u <= 0x200a) || u == 0x2028 || u == 0x2029 || u == 0x202f || u == 0x205f || u
        == 0x3000
}

proof fn lemma_first_kept(s: Seq<char>, i: int)
    requires
        0 <= i <= s.len(),
    ensures
        i <= first_kept(s, i) <= s.len(),
        forall|k: int| i <= k < first_kept(s, i) ==> is_space(#[trigger] s[k]),
        first_kept(s, i) < s.len() ==> !is_space(s[first_kept(s, i)]),
    decreases s.len() - i,
{
    if i < s.len() && is_space(s[i]) {
        lemma_first_kept(s, i + 1);
    }
}

proof fn lemma_last_kept(s: Seq<char>, lo: int, j: int)
    requires
        0 <= lo <= j <= s.len(),
    ensures
        lo <= last_kept(s, lo, j) <= j,
        forall|k: int| last_kept(s, lo, j) <= k < j ==> is_space(#[trigger] s[k]),
        last_kept(s, lo, j) > lo ==> !is_space(s[last_kept(s, lo, j) - 1]),
    decreases j - lo,
{
    if j > lo && is_space(s[j - 1]) {
        lemma_last_kept(s, lo, j - 1);
    }
}

/// What `trimmed` keeps: a contiguous part of `s` that neither starts nor ends
/// with whitespace, where everything cut away before and after it is whitespace.
pub proof fn lemma_trimmed(s: Seq<char>)
    ensures
        ({
            let t = trimmed(s);
            let lo = first_kept(s, 0);
            let hi = last_kept(s, lo, s.len() as int);
            &&& 0 <= lo <= hi <= s.len()
            &&& t == s.subrange(lo, hi)
            &&& t.len() > 0 ==> !is_space(t[0]) && !is_space(t[t.len() - 1])
            &&& forall|k: int| 0 <= k < lo ==> is_space(#[trigger] s[k])
            &&& forall|k: int| hi <= k < s.len() ==> is_space(#[trigger] s[k])
        }),
{
    lemma_first_kept(s, 0);
    let lo = first_kept(s, 0);
    lemma_last_kept(s, lo, s.len() as int);
}

/// The identity with leading and trailing whitespace removed, as it is used in
/// reports and lookups.
pub fn trim_identity(s: &str) -> (r: String)
    ensures
        r@ == trimmed(s@),
{
    let n = s.unicode_len();
    let mut lo: usize = 0;
    while lo < n && is_space_char(s.get_char(lo))
        invariant
            n == s@.len(),
            0 <= lo <= n,
            first_kept(s@, 0) == first_kept(s@, lo as int),
        decreases n - lo,
    {
        lo = lo + 1;
    }
    let mut hi: usize = n;
    while hi > lo && is_space_char(s.get_char(hi - 1))
        invariant
            n == s@.len(),
            0 <= lo <= hi <= n,
            first_kept(s@, 0) == lo,
            last_kept(s@, lo as int, n as int) == last_kept(s@, lo as int, hi as int),
        decreases hi,
    {
        hi = hi - 1;
    }
    String::from_str(s.substring_char(lo, hi))
}

} // verus!
