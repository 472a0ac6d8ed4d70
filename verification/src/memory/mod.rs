//! Memory management utilities: page-table walking, kernel module lookup,
//! memory descriptor lists and byte pattern search.
use vstd::prelude::*;

pub mod allocator;
pub mod mdl;
pub mod module;
pub mod pagewalk;
pub mod rw;

verus! {

/// Whether `pattern` matches `memory` at offset `i`: every `Some(byte)`
/// equals the byte at its place, and `None` matches any byte.
pub open spec fn pattern_matches_at(memory: Seq<u8>, i: int, pattern: Seq<Option<u8>>) -> bool {
    &&& 0 <= i
    &&& i + pattern.len() <= memory.len()
    &&& forall|j: int| 0 <= j < pattern.len() ==> (#[trigger] pattern[j] matches Some(b) ==> memory[i + j] == b)
}

/// Searches `pattern` within the memory region that starts at `base` and
/// whose bytes are `image`. Each element of the pattern is either
/// `Some(byte)`, matching that value, or `None`, matching any byte.
///
/// Returns the address of the first occurrence, or `None` when the pattern is
/// empty, longer than the region, or absent.
pub fn pattern_search(base: u64, image: &[u8], pattern: &[Option<u8>]) -> (r: Option<u64>)
    requires
        base + image@.len() <= u64::MAX + 1,
    ensures
        pattern@.len() == 0 ==> r is None,
        match r {
            Some(addr) => {
                let i = addr - base;
                &&& pattern@.len() > 0
                &&& pattern_matches_at(image@, i, pattern@)
                &&& forall|k: int| 0 <= k < i ==> !pattern_matches_at(image@, k, pattern@)
            },
            None => pattern@.len() == 0 || forall|k: int| !pattern_matches_at(image@, k, pattern@),
        },
{
    let plen = pattern.len();
    if plen == 0 || image.len() < plen {
        return None;
    }
    let last = image.len() - plen;
    assert(image@.len() <= usize::MAX);
    let mut i: usize = 0;
    while i <= last
        invariant
            plen == pattern@.len(),
            plen > 0,
            last == image@.len() - plen,
            i <= last + 1,
            last < usize::MAX,
            image@.len() <= usize::MAX,
            base + image@.len() <= u64::MAX + 1,
            forall|k: int| 0 <= k < i ==> !pattern_matches_at(image@, k, pattern@),
        decreases last + 1 - i,
    {
        let mut found = true;
        let mut j: usize = 0;
        while j < plen
            invariant_except_break
                found,
                forall|m: int| 0 <= m < j ==> (#[trigger] pattern@[m] matches Some(b) ==> image@[i + m] == b),
            invariant
                plen == pattern@.len(),
                i <= last,
                last == image@.len() - plen,
                image@.len() <= usize::MAX,
                j <= plen,
            ensures
                found ==> forall|m: int| 0 <= m < plen ==> (#[trigger] pattern@[m] matches Some(b) ==> image@[i + m] == b),
                !found ==> !pattern_matches_at(image@, i as int, pattern@),
            decreases plen - j,
        {
            match pattern[j] {
                Some(b) => {
                    if image[i + j] != b {
                        found = false;
                        assert(pattern@[j as int] matches Some(bb) && image@[i + j] != bb);
                        break;
                    }
                },
                None => {},
            }
            j = j + 1;
        }
        if found {
            assert(pattern_matches_at(image@, i as int, pattern@));
            return Some(base + i as u64);
        }
        assert(!pattern_matches_at(image@, i as int, pattern@));
        i = i + 1;
    }
    None
}

} // verus!
