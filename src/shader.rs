use vstd::prelude::*;
use vstd::string::StringSliceAdditionalSpecFns;

verus! {

/// `p` appears in `s` starting at position `i`.
pub open spec fn occurs_at(s: Seq<u8>, p: Seq<u8>, i: int) -> bool {
    0 <= i && i + p.len() <= s.len() && s.subrange(i, i + p.len()) == p
}

/// `p` appears somewhere in `s`.
pub open spec fn occurs(s: Seq<u8>, p: Seq<u8>) -> bool {
    exists|i: int| occurs_at(s, p, i)
}

/// Whether shader source `src` (its UTF-8 bytes) holds the text `decl`.
pub open spec fn declares(src: Seq<u8>, decl: &str) -> bool {
    occurs(src, decl.spec_bytes())
}

/// Whether `p` occurs as a contiguous run of bytes in `s`.
pub fn contains_bytes(s: &[u8], p: &[u8]) -> (r: bool)
    ensures
        r == occurs(s@, p@),
{
    if p.len() > s.len() {
        return false;
    }
    if p.len() == 0 {
        assert(s@.subrange(0, 0) =~= p@);
        assert(occurs_at(s@, p@, 0));
        return true;
    }
    let last: usize = s.len() - p.len();
    let mut i: usize = 0;
    while i <= last
        invariant
            last == s@.len() - p@.len(),
            p@.len() >= 1,
            s@.len() <= usize::MAX,
            i <= last + 1,
            forall|j: int| 0 <= j < i ==> !occurs_at(s@, p@, j),
        decreases last + 1 - i,
    {
        let mut k: usize = 0;
        let mut same = true;
        while k < p.len() && same
            invariant
                i <= last,
                last == s@.len() - p@.len(),
                s@.len() <= usize::MAX,
                k <= p@.len(),
                same ==> forall|m: int| 0 <= m < k ==> s@[i + m] == p@[m],
                !same ==> !occurs_at(s@, p@, i as int),
            decreases p@.len() - k + (if same { 1int } else { 0int }),
        {
            if s[i + k] != p[k] {
                same = false;
                assert(s@.subrange(i as int, i + p@.len())[k as int] != p@[k as int]);
            } else {
                k = k + 1;
            }
        }
        if same {
            assert(s@.subrange(i as int, i + p@.len()) =~= p@);
            assert(occurs_at(s@, p@, i as int));
            return true;
        }
        i = i + 1;
    }
    assert forall|j: int| !occurs_at(s@, p@, j) by {
        if 0 <= j && j + p@.len() <= s@.len() {
            assert(j < i);
        }
    }
    false
}

/// Whether shader source `src` holds the text `decl`.
pub fn source_declares(src: &str, decl: &str) -> (r: bool)
    ensures
        r == declares(src.spec_bytes(), decl),
{
    contains_bytes(src.as_bytes(), decl.as_bytes())
}

} // verus!
