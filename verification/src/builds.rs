//! Locating the kernel import library `ntoskrnl.lib` in a Windows Driver Kit.
//!
//! The target architecture is derived from the compilation target name, and
//! the best `km/<arch>` directory is chosen among the versioned directories
//! of the kit's `Lib` folder (`10.x.y.z`), highest version first. Reading the
//! registry, the environment and the file system is left to the caller, who
//! hands over what it found.
use vstd::prelude::*;
use vstd::utf8::encode_utf8;

verus! {

/// Environment variable that overrides the kit directory.
pub const ENV_KM_LIB_OVERRIDE: &'static str = "WINDOWS_KITS_KM_LIB";

/// Target assumed when none is given.
pub const DEFAULT_TARGET_ARCH: &'static str = "x86_64-pc-windows-msvc";

/// Name of the kernel import library.
pub const NTOSKRNL_LIB_NAME: &'static str = "ntoskrnl.lib";

/// Whether the bytes `p` occur in the bytes `s`.
pub open spec fn has_substring(s: Seq<u8>, p: Seq<u8>) -> bool {
    exists|i: int| 0 <= i && i + p.len() <= s.len() && #[trigger] s.subrange(i, i + p.len()) == p
}

/// `str::contains` with a string pattern: whether `pattern` occurs in `s`.
#[verifier::external_body]
fn str_contains(s: &str, pattern: &str) -> (r: bool)
    ensures
        r == has_substring(encode_utf8(s@), encode_utf8(pattern@)),
{
    s.contains(pattern)
}

/// `str::starts_with` with a string pattern: whether `s` begins with `prefix`.
#[verifier::external_body]
fn str_starts_with(s: &str, prefix: &str) -> (r: bool)
    ensures
        r == (encode_utf8(prefix@).len() <= encode_utf8(s@).len()
            && encode_utf8(s@).subrange(0, encode_utf8(prefix@).len() as int) == encode_utf8(prefix@)),
{
    s.starts_with(prefix)
}

/// Whether the target name `target` contains `pattern`.
pub open spec fn target_has(target: Seq<char>, pattern: Seq<char>) -> bool {
    has_substring(encode_utf8(target), encode_utf8(pattern))
}

/// The kit architecture directory for the compilation target `target`, and
/// whether the target was recognized: `x64` for `x86_64` targets; `x86` for
/// `i686`, `i586` and `i486`; `arm64` for `aarch64`; otherwise `x64`,
/// unrecognized.
pub fn get_arch_from_target(target: &str) -> (r: (&'static str, bool))
    ensures
        target_has(target@, "x86_64"@) ==> r.0@ == "x64"@ && r.1,
        !target_has(target@, "x86_64"@) && (target_has(target@, "i686"@) || target_has(target@, "i586"@)
            || target_has(target@, "i486"@)) ==> r.0@ == "x86"@ && r.1,
        !target_has(target@, "x86_64"@) && !(target_has(target@, "i686"@) || target_has(target@, "i586"@)
            || target_has(target@, "i486"@)) && target_has(target@, "aarch64"@) ==> r.0@ == "arm64"@ && r.1,
        !target_has(target@, "x86_64"@) && !(target_has(target@, "i686"@) || target_has(target@, "i586"@)
            || target_has(target@, "i486"@)) && !target_has(target@, "aarch64"@) ==> r.0@ == "x64"@ && !r.1,
{
    if str_contains(target, "x86_64") {
        ("x64", true)
    } else if str_contains(target, "i686") || str_contains(target, "i586") || str_contains(target, "i486") {
        ("x86", true)
    } else if str_contains(target, "aarch64") {
        ("arm64", true)
    } else {
        ("x64", false)
    }
}

/// `str::split_once` with a character delimiter: the parts of `s` before
/// and after the first occurrence of `sep`, or `None` when `sep` does not
/// occur.
#[verifier::external_body]
fn str_split_once(s: &str, sep: char) -> (r: Option<(&str, &str)>)
    ensures
        r is None <==> !s@.contains(sep),
        r matches Some((head, tail)) ==> s@ == head@ + seq![sep] + tail@ && !head@.contains(sep),
{
    s.split_once(sep)
}

/// Whether every character of `ds` is an ASCII digit.
pub open spec fn all_digits(ds: Seq<char>) -> bool {
    forall|i: int| 0 <= i < ds.len() ==> '0' <= #[trigger] ds[i] <= '9'
}

/// The value of the decimal digits `ds`.
pub open spec fn decimal_value(ds: Seq<char>) -> int
    decreases ds.len(),
{
    if ds.len() == 0 {
        0
    } else {
        decimal_value(ds.drop_last()) * 10 + (ds.last() as int - '0' as int)
    }
}

/// What `str::parse::<u64>` gives: an optional `+` followed by at least one
/// decimal digit, whose value fits in 64 bits.
pub open spec fn parsed_u64(s: Seq<char>) -> Option<u64> {
    let ds = if s.len() > 0 && s[0] == '+' { s.drop_first() } else { s };
    if ds.len() > 0 && all_digits(ds) && decimal_value(ds) <= u64::MAX {
        Some(decimal_value(ds) as u64)
    } else {
        None
    }
}

/// `str::parse::<u64>`, keeping only success.
#[verifier::external_body]
fn parse_u64(s: &str) -> (r: Option<u64>)
    ensures
        r == parsed_u64(s@),
{
    s.parse::<u64>().ok()
}

/// `rest` preceded by the number `n`, when there is one.
pub open spec fn with_number(n: Option<u64>, rest: Seq<u64>) -> Seq<u64> {
    match n {
        Some(v) => seq![v] + rest,
        None => rest,
    }
}

/// The version numbers of a kit directory name such as `10.0.22621.0`: the
/// parts between dots that are numbers, in order.
pub open spec fn version_of(name: Seq<char>) -> Seq<u64>
    decreases name.len(),
{
    match name.index_of_first('.') {
        Some(i) => if 0 <= i < name.len() {
            with_number(parsed_u64(name.take(i)), version_of(name.skip(i + 1)))
        } else {
            Seq::empty()
        },
        None => with_number(parsed_u64(name), Seq::empty()),
    }
}

/// Splits a directory name on `.` and keeps the parts that are numbers.
pub fn version_parts(name: &str) -> (r: Vec<u64>)
    ensures
        r@ == version_of(name@),
{
    let mut numbers: Vec<u64> = Vec::new();
    let mut rest: &str = name;
    loop
        invariant
            version_of(name@) == numbers@ + version_of(rest@),
        decreases rest@.len(),
    {
        match str_split_once(rest, '.') {
            Some((head, tail)) => {
                proof {
                    rest@.index_of_first_ensures('.');
                    assert(rest@[head@.len() as int] == '.');
                    let i = rest@.index_of_first('.')->0;
                    if i < head@.len() {
                        assert(head@[i] == rest@[i]);
                    }
                    assert(i == head@.len());
                    assert(rest@.take(i) =~= head@);
                    assert(rest@.skip(i + 1) =~= tail@);
                }
                let ghost before = numbers@;
                match parse_u64(head) {
                    Some(n) => {
                        numbers.push(n);
                        assert(before + (seq![n] + version_of(tail@)) =~= numbers@ + version_of(tail@));
                    },
                    None => {},
                }
                rest = tail;
            },
            None => {
                proof {
                    rest@.index_of_first_ensures('.');
                }
                let ghost before = numbers@;
                match parse_u64(rest) {
                    Some(n) => {
                        numbers.push(n);
                        assert(before + (seq![n] + Seq::<u64>::empty()) =~= numbers@);
                    },
                    None => {
                        assert(before + Seq::<u64>::empty() =~= numbers@);
                    },
                }
                return numbers;
            },
        }
    }
}

/// Lexicographic order of version numbers from position `k` on, as `Vec`
/// compares them: the first difference decides, and a prefix comes first.
pub open spec fn version_le_from(a: Seq<u64>, b: Seq<u64>, k: nat) -> bool
    decreases a.len() - k,
{
    if k >= a.len() {
        true
    } else if k >= b.len() {
        false
    } else if a[k as int] < b[k as int] {
        true
    } else if a[k as int] > b[k as int] {
        false
    } else {
        version_le_from(a, b, k + 1)
    }
}

/// Lexicographic order of version numbers.
pub open spec fn version_le(a: Seq<u64>, b: Seq<u64>) -> bool {
    version_le_from(a, b, 0)
}

proof fn lemma_version_le_total_from(a: Seq<u64>, b: Seq<u64>, k: nat)
    ensures
        version_le_from(a, b, k) || version_le_from(b, a, k),
    decreases a.len() - k,
{
    if k < a.len() && k < b.len() && a[k as int] == b[k as int] {
        lemma_version_le_total_from(a, b, k + 1);
    }
}

proof fn lemma_version_le_trans_from(a: Seq<u64>, b: Seq<u64>, c: Seq<u64>, k: nat)
    requires
        version_le_from(a, b, k),
        version_le_from(b, c, k),
    ensures
        version_le_from(a, c, k),
    decreases a.len() - k,
{
    if k < a.len() && k < b.len() && k < c.len() && a[k as int] == b[k as int] && b[k as int] == c[k as int] {
        lemma_version_le_trans_from(a, b, c, k + 1);
    }
}

/// The version order is total.
pub proof fn lemma_version_le_total(a: Seq<u64>, b: Seq<u64>)
    ensures
        version_le(a, b) || version_le(b, a),
{
    lemma_version_le_total_from(a, b, 0);
}

/// The version order is transitive.
pub proof fn lemma_version_le_trans(a: Seq<u64>, b: Seq<u64>, c: Seq<u64>)
    requires
        version_le(a, b),
        version_le(b, c),
    ensures
        version_le(a, c),
{
    lemma_version_le_trans_from(a, b, c, 0);
}

/// Compares two version number lists lexicographically.
pub fn version_less_or_equal(a: &[u64], b: &[u64]) -> (r: bool)
    ensures
        r == version_le(a@, b@),
{
    let mut k: usize = 0;
    while k < a.len()
        invariant
            k <= a@.len(),
            version_le(a@, b@) == version_le_from(a@, b@, k as nat),
        decreases a@.len() - k,
    {
        if k >= b.len() {
            return false;
        }
        if a[k] < b[k] {
            return true;
        }
        if a[k] > b[k] {
            return false;
        }
        k = k + 1;
    }
    true
}

/// What the caller found of one entry of the kit's `Lib` directory: whether
/// it is a directory, its name when that is valid Unicode, and whether it
/// holds `km/<arch>/ntoskrnl.lib`.
pub struct KmDirEntry {
    pub is_dir: bool,
    pub name: Option<String>,
    pub has_kernel_library: bool,
}

/// Which directory was chosen: an entry of the first scan, with the highest
/// version, or, failing that, an entry of the second scan.
#[derive(Debug, Clone, Copy, PartialEq, Eq, Structural)]
pub enum KmDirChoice {
    Versioned(usize),
    Any(usize),
}

/// Whether `e` is a versioned kit directory (`10.` followed by the rest of
/// a version) that holds the kernel library.
pub open spec fn is_versioned_candidate(e: KmDirEntry) -> bool {
    &&& e.is_dir
    &&& e.name is Some
    &&& encode_utf8("10."@).len() <= encode_utf8(e.name->0@).len()
    &&& encode_utf8(e.name->0@).subrange(0, encode_utf8("10."@).len() as int) == encode_utf8("10."@)
    &&& e.has_kernel_library
}

/// The version of a versioned candidate.
pub open spec fn entry_version(e: KmDirEntry) -> Seq<u64> {
    version_of(e.name->0@)
}

/// Whether `e` is any directory that holds the kernel library.
pub open spec fn is_fallback_candidate(e: KmDirEntry) -> bool {
    e.is_dir && e.has_kernel_library
}

/// `i` is the versioned candidate of `entries` with the highest version, the
/// last one among equals.
pub open spec fn is_best_versioned(entries: Seq<KmDirEntry>, i: int) -> bool {
    &&& 0 <= i < entries.len()
    &&& is_versioned_candidate(entries[i])
    &&& forall|j: int| 0 <= j < entries.len() && is_versioned_candidate(#[trigger] entries[j])
        ==> version_le(entry_version(entries[j]), entry_version(entries[i]))
    &&& forall|j: int| i < j < entries.len() && is_versioned_candidate(#[trigger] entries[j])
        ==> !version_le(entry_version(entries[i]), entry_version(entries[j]))
}

/// The best versioned candidate of `entries`, if any.
fn best_versioned(entries: &[KmDirEntry]) -> (r: Option<usize>)
    ensures
        match r {
            Some(i) => is_best_versioned(entries@, i as int),
            None => forall|j: int| 0 <= j < entries@.len() ==> !is_versioned_candidate(#[trigger] entries@[j]),
        },
{
    let mut best: Option<usize> = None;
    let mut best_version: Vec<u64> = Vec::new();
    let mut i: usize = 0;
    while i < entries.len()
        invariant
            i <= entries@.len(),
            match best {
                Some(b) => {
                    &&& b < i
                    &&& is_versioned_candidate(entries@[b as int])
                    &&& best_version@ == entry_version(entries@[b as int])
                    &&& forall|j: int| 0 <= j < i && is_versioned_candidate(#[trigger] entries@[j])
                        ==> version_le(entry_version(entries@[j]), best_version@)
                    &&& forall|j: int| b < j < i && is_versioned_candidate(#[trigger] entries@[j])
                        ==> !version_le(best_version@, entry_version(entries@[j]))
                },
                None => forall|j: int| 0 <= j < i ==> !is_versioned_candidate(#[trigger] entries@[j]),
            },
        decreases entries@.len() - i,
    {
        let e = &entries[i];
        if e.is_dir {
            match &e.name {
                Some(name) => {
                    if str_starts_with(name.as_str(), "10.") && e.has_kernel_library {
                        let v = version_parts(name.as_str());
                        assert(is_versioned_candidate(entries@[i as int]));
                        let take = match best {
                            None => true,
                            Some(_) => version_less_or_equal(best_version.as_slice(), v.as_slice()),
                        };
                        if take {
                            proof {
                                if best is Some {
                                    assert forall|j: int| 0 <= j < i && is_versioned_candidate(#[trigger] entries@[j])
                                        implies version_le(entry_version(entries@[j]), v@) by {
                                        lemma_version_le_trans(entry_version(entries@[j]), best_version@, v@);
                                    }
                                }
                            }
                            best = Some(i);
                            best_version = v;
                            proof {
                                lemma_version_le_total(best_version@, best_version@);
                            }
                        } else {
                            proof {
                                lemma_version_le_total(best_version@, v@);
                            }
                        }
                    }
                },
                None => {},
            }
        }
        i = i + 1;
    }
    best
}

/// Chooses the kit directory holding the kernel library.
///
/// `first_scan` and `second_scan` are the entries of the kit's `Lib`
/// directory from two successive listings. The choice is the versioned
/// directory (name starting with `10.`) with the highest version that holds
/// the library, the last listed among equal versions; failing any, the first
/// directory of the second listing that holds the library.
pub fn find_best_km_dir(first_scan: &[KmDirEntry], second_scan: &[KmDirEntry]) -> (r: Option<KmDirChoice>)
    ensures
        match r {
            Some(KmDirChoice::Versioned(i)) => is_best_versioned(first_scan@, i as int),
            Some(KmDirChoice::Any(i)) => {
                &&& forall|j: int| 0 <= j < first_scan@.len() ==> !is_versioned_candidate(#[trigger] first_scan@[j])
                &&& i < second_scan@.len()
                &&& is_fallback_candidate(second_scan@[i as int])
                &&& forall|j: int| 0 <= j < i ==> !is_fallback_candidate(#[trigger] second_scan@[j])
            },
            None => {
                &&& forall|j: int| 0 <= j < first_scan@.len() ==> !is_versioned_candidate(#[trigger] first_scan@[j])
                &&& forall|j: int| 0 <= j < second_scan@.len() ==> !is_fallback_candidate(#[trigger] second_scan@[j])
            },
        },
{
    match best_versioned(first_scan) {
        Some(i) => return Some(KmDirChoice::Versioned(i)),
        None => {},
    }
    let mut i: usize = 0;
    while i < second_scan.len()
        invariant
            i <= second_scan@.len(),
            forall|j: int| 0 <= j < first_scan@.len() ==> !is_versioned_candidate(#[trigger] first_scan@[j]),
            forall|j: int| 0 <= j < i ==> !is_fallback_candidate(#[trigger] second_scan@[j]),
        decreases second_scan@.len() - i,
    {
        if second_scan[i].is_dir && second_scan[i].has_kernel_library {
            return Some(KmDirChoice::Any(i));
        }
        i = i + 1;
    }
    None
}

} // verus!
