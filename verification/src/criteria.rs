//! Search criteria and pattern matching: an address satisfies the criteria
//! when its hexadecimal body starts with the requested prefix and ends with
//! the requested suffix, both compared without regard to letter case; an
//! absent constraint always holds.

use vstd::prelude::*;
use vstd::string::StrSliceExecFns;

verus! {

/// The textual constraints of a search: an optional prefix and an optional
/// suffix for the address body. Immutable for the duration of a search.
#[derive(Debug)]
pub struct SearchCriteria {
    pub prefix: Option<String>,
    pub suffix: Option<String>,
}

/// The character code of `c` with an uppercase ASCII letter folded to its
/// lowercase counterpart; any other character keeps its own code.
pub open spec fn fold_code(c: char) -> int {
    if 65 <= c as int <= 90 {
        c as int + 32
    } else {
        c as int
    }
}

/// Whether two character strings are equal up to ASCII letter case.
pub open spec fn seq_eq_ci(a: Seq<char>, b: Seq<char>) -> bool {
    &&& a.len() == b.len()
    &&& forall|i: int| 0 <= i < a.len() ==> fold_code(a[i]) == fold_code(b[i])
}

/// Whether `a` starts with `p`, up to ASCII letter case.
pub open spec fn starts_with_ci(a: Seq<char>, p: Seq<char>) -> bool {
    &&& p.len() <= a.len()
    &&& seq_eq_ci(a.subrange(0, p.len() as int), p)
}

/// Whether `a` ends with `s`, up to ASCII letter case.
pub open spec fn ends_with_ci(a: Seq<char>, s: Seq<char>) -> bool {
    &&& s.len() <= a.len()
    &&& seq_eq_ci(a.subrange(a.len() - s.len(), a.len() as int), s)
}

/// Whether an address body satisfies the criteria: it starts with the prefix
/// if one is present, and ends with the suffix if one is present; both
/// comparisons ignore ASCII letter case, and an absent constraint holds of
/// every address.
pub open spec fn spec_matches(a: Seq<char>, prefix: Option<Seq<char>>, suffix: Option<Seq<char>>) -> bool {
    &&& (prefix matches Some(p) ==> starts_with_ci(a, p))
    &&& (suffix matches Some(s) ==> ends_with_ci(a, s))
}

impl SearchCriteria {
    /// The prefix constraint as a character string, if present.
    pub open spec fn prefix_view(&self) -> Option<Seq<char>> {
        match self.prefix {
            Some(ref p) => Some(p@),
            None => None,
        }
    }

    /// The suffix constraint as a character string, if present.
    pub open spec fn suffix_view(&self) -> Option<Seq<char>> {
        match self.suffix {
            Some(ref s) => Some(s@),
            None => None,
        }
    }

    /// Whether the criteria constrain nothing: no prefix and no suffix.
    pub open spec fn is_unconstrained(&self) -> bool {
        self.prefix is None && self.suffix is None
    }
}

/// The character code of `c` with an uppercase ASCII letter folded to
/// lowercase.
fn fold_char(c: char) -> (r: u32)
    ensures
        r == fold_code(c),
{
    let u = c as u32;
    if 65 <= u && u <= 90 {
        u + 32
    } else {
        u
    }
}

/// Whether the characters of `address` starting at `offset` agree with
/// `pattern`, up to ASCII letter case.
fn eq_ci_at(address: &str, address_len: usize, pattern: &str, offset: usize, pattern_len: usize) -> (r: bool)
    requires
        address_len == address@.len(),
        pattern_len == pattern@.len(),
        offset + pattern_len <= address_len,
    ensures
        r == seq_eq_ci(
            address@.subrange(offset as int, offset + pattern@.len()),
            pattern@,
        ),
{
    let ghost sub = address@.subrange(offset as int, offset + pattern@.len());
    let mut i: usize = 0;
    while i < pattern_len
        invariant
            i <= pattern_len,
            address_len == address@.len(),
            pattern_len == pattern@.len(),
            offset + pattern_len <= address_len,
            sub == address@.subrange(offset as int, offset + pattern@.len()),
            forall|j: int| 0 <= j < i ==> fold_code(sub[j]) == fold_code(pattern@[j]),
        decreases pattern_len - i,
    {
        let ac = address.get_char(offset + i);
        let pc = pattern.get_char(i);
        if fold_char(ac) != fold_char(pc) {
            proof {
                assert(sub[i as int] == address@[offset + i]);
            }
            return false;
        }
        proof {
            assert(sub[i as int] == address@[offset + i]);
        }
        i += 1;
    }
    true
}

/// Whether the address body satisfies the criteria: prefix and suffix
/// compared without regard to ASCII letter case, an absent constraint
/// holding always. When both constraints are absent, every address matches.
pub fn matches_criteria(address: &str, criteria: &SearchCriteria) -> (r: bool)
    ensures
        r == spec_matches(address@, criteria.prefix_view(), criteria.suffix_view()),
{
    let alen = address.unicode_len();
    match &criteria.prefix {
        Some(p) => {
            let plen = p.as_str().unicode_len();
            if plen > alen {
                return false;
            }
            if !eq_ci_at(address, alen, p.as_str(), 0, plen) {
                return false;
            }
        },
        None => {},
    }
    match &criteria.suffix {
        Some(s) => {
            let slen = s.as_str().unicode_len();
            if slen > alen {
                return false;
            }
            if !eq_ci_at(address, alen, s.as_str(), alen - slen, slen) {
                return false;
            }
        },
        None => {},
    }
    true
}

/// Criteria that agree up to ASCII letter case constrain a search
/// identically: an address matches under the one exactly when it matches
/// under the other.
pub proof fn lemma_matches_case_insensitive(
    a: Seq<char>,
    p1: Seq<char>,
    p2: Seq<char>,
    s1: Seq<char>,
    s2: Seq<char>,
)
    requires
        seq_eq_ci(p1, p2),
        seq_eq_ci(s1, s2),
    ensures
        spec_matches(a, Some(p1), Some(s1)) == spec_matches(a, Some(p2), Some(s2)),
{
    lemma_starts_with_ci_congruence(a, p1, p2);
    lemma_ends_with_ci_congruence(a, s1, s2);
}

/// Prefixes that agree up to ASCII letter case start the same addresses.
pub proof fn lemma_starts_with_ci_congruence(a: Seq<char>, p1: Seq<char>, p2: Seq<char>)
    requires
        seq_eq_ci(p1, p2),
    ensures
        starts_with_ci(a, p1) == starts_with_ci(a, p2),
{
    if p1.len() <= a.len() {
        let sub = a.subrange(0, p1.len() as int);
        assert(seq_eq_ci(sub, p1) == seq_eq_ci(sub, p2));
    }
}

/// Suffixes that agree up to ASCII letter case end the same addresses.
pub proof fn lemma_ends_with_ci_congruence(a: Seq<char>, s1: Seq<char>, s2: Seq<char>)
    requires
        seq_eq_ci(s1, s2),
    ensures
        ends_with_ci(a, s1) == ends_with_ci(a, s2),
{
    if s1.len() <= a.len() {
        let sub = a.subrange(a.len() - s1.len(), a.len() as int);
        assert(seq_eq_ci(sub, s1) == seq_eq_ci(sub, s2));
    }
}

} // verus!
