//! Character-exact string comparison and affix stripping, used by the
//! tray-command mapping, the refresh de-duplication and the weather
//! temperature formatting.

use vstd::prelude::*;

verus! {

/// Character-by-character string equality.
pub fn str_eq(a: &str, b: &str) -> (r: bool)
    ensures
        r == (a@ == b@),
{
    let alen = a.unicode_len();
    let blen = b.unicode_len();
    if alen != blen {
        return false;
    }
    let mut i: usize = 0;
    while i < alen
        invariant
            i <= alen,
            alen == a@.len(),
            alen == b@.len(),
            forall|j: int| 0 <= j < i ==> a@[j] == b@[j],
        decreases alen - i,
    {
        if a.get_char(i) != b.get_char(i) {
            return false;
        }
        i += 1;
    }
    proof {
        assert(a@ =~= b@);
    }
    true
}

/// Whether `p` is a prefix of `s`, character for character.
pub fn has_prefix(s: &str, p: &str) -> (r: bool)
    ensures
        r == p@.is_prefix_of(s@),
{
    let slen = s.unicode_len();
    let plen = p.unicode_len();
    if plen > slen {
        return false;
    }
    let mut i: usize = 0;
    while i < plen
        invariant
            i <= plen,
            plen == p@.len(),
            slen == s@.len(),
            plen <= slen,
            forall|j: int| 0 <= j < i ==> p@[j] == s@[j],
        decreases plen - i,
    {
        if p.get_char(i) != s.get_char(i) {
            proof {
                assert(s@.subrange(0, p@.len() as int)[i as int] == s@[i as int]);
            }
            return false;
        }
        i += 1;
    }
    proof {
        assert(p@ =~= s@.subrange(0, p@.len() as int));
    }
    true
}

/// Whether `p` is a suffix of `s`, character for character.
pub fn has_suffix(s: &str, p: &str) -> (r: bool)
    ensures
        r == p@.is_suffix_of(s@),
{
    let slen = s.unicode_len();
    let plen = p.unicode_len();
    if plen > slen {
        return false;
    }
    let off: usize = slen - plen;
    let mut i: usize = 0;
    while i < plen
        invariant
            i <= plen,
            plen == p@.len(),
            slen == s@.len(),
            plen <= slen,
            off == slen - plen,
            forall|j: int| 0 <= j < i ==> p@[j] == s@[off + j],
        decreases plen - i,
    {
        if p.get_char(i) != s.get_char(off + i) {
            proof {
                assert(s@.subrange(s@.len() - p@.len(), s@.len() as int)[i as int] == s@[off
                    + i as int]);
            }
            return false;
        }
        i += 1;
    }
    proof {
        assert(p@ =~= s@.subrange(s@.len() - p@.len(), s@.len() as int));
    }
    true
}

/// `s` with one leading occurrence of `p` removed, if `p` is a prefix of `s`;
/// `s` unchanged otherwise.
pub open spec fn spec_strip_prefix(s: Seq<char>, p: Seq<char>) -> Seq<char> {
    if p.is_prefix_of(s) {
        s.skip(p.len() as int)
    } else {
        s
    }
}

/// `s` with one trailing occurrence of `p` removed, if `p` is a suffix of `s`;
/// `s` unchanged otherwise.
pub open spec fn spec_strip_suffix(s: Seq<char>, p: Seq<char>) -> Seq<char> {
    if p.is_suffix_of(s) {
        s.take(s.len() - p.len())
    } else {
        s
    }
}

/// Removes one leading occurrence of `p` from `s`, if present.
pub fn strip_prefix_str(s: &str, p: &str) -> (r: String)
    ensures
        r@ == spec_strip_prefix(s@, p@),
{
    if has_prefix(s, p) {
        let slen = s.unicode_len();
        let plen = p.unicode_len();
        let rest = s.substring_char(plen, slen);
        let r = String::from_str(rest);
        proof {
            assert(r@ =~= spec_strip_prefix(s@, p@));
        }
        r
    } else {
        String::from_str(s)
    }
}

/// Removes one trailing occurrence of `p` from `s`, if present.
pub fn strip_suffix_str(s: &str, p: &str) -> (r: String)
    ensures
        r@ == spec_strip_suffix(s@, p@),
{
    if has_suffix(s, p) {
        let slen = s.unicode_len();
        let plen = p.unicode_len();
        let rest = s.substring_char(0, slen - plen);
        let r = String::from_str(rest);
        proof {
            assert(r@ =~= spec_strip_suffix(s@, p@));
        }
        r
    } else {
        String::from_str(s)
    }
}

} // verus!
