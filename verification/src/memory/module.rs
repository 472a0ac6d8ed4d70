//! Kernel module discovery and export resolution.
//!
//! Loaded kernel modules are listed by `ZwQuerySystemInformation` with the
//! `SystemModuleInformation` class; the returned buffer holds an
//! `RTL_PROCESS_MODULES` record. A module is found by its full NT path or by
//! its file name, compared case-insensitively. Exports are resolved by
//! `RtlFindExportedRoutineByName`.
//!
//! The two system calls are made by closures that the caller supplies; the
//! parsing of the returned buffer, the search and the argument checks are
//! verified here.
use vstd::prelude::*;
use vstd::bytes::{spec_u16_from_le_bytes, spec_u32_from_le_bytes, spec_u64_from_le_bytes};
use vstd::utf8::{valid_utf8, decode_utf8, encode_utf8, is_char_boundary};
use crate::{
    NTSTATUS, RTL_PROCESS_MODULE_INFORMATION, STATUS_INFO_LENGTH_MISMATCH, STATUS_INVALID_PARAMETER,
    nt_success, is_until_nul,
};

verus! {

/// Offset of the first module record in an `RTL_PROCESS_MODULES` buffer.
pub const MODULES_OFFSET: usize = 8;

/// Size of one `RTL_PROCESS_MODULE_INFORMATION` record.
pub const MODULE_RECORD_SIZE: usize = 296;

/// Size of the `FullPathName` field.
pub const FULL_PATH_SIZE: usize = 256;

/// Offset of `FullPathName` inside a module record.
pub const FULL_PATH_OFFSET: usize = 40;

/// Whether `m` is the module record stored at byte offset `b` of `buf`,
/// laid out as `RTL_PROCESS_MODULE_INFORMATION` in little-endian order.
pub open spec fn is_module_record(m: RTL_PROCESS_MODULE_INFORMATION, buf: Seq<u8>, b: int) -> bool {
    &&& m.Section == spec_u64_from_le_bytes(buf.subrange(b, b + 8))
    &&& m.MappedBase == spec_u64_from_le_bytes(buf.subrange(b + 8, b + 16))
    &&& m.ImageBase == spec_u64_from_le_bytes(buf.subrange(b + 16, b + 24))
    &&& m.ImageSize == spec_u32_from_le_bytes(buf.subrange(b + 24, b + 28))
    &&& m.Flags == spec_u32_from_le_bytes(buf.subrange(b + 28, b + 32))
    &&& m.LoadOrderIndex == spec_u16_from_le_bytes(buf.subrange(b + 32, b + 34))
    &&& m.InitOrderIndex == spec_u16_from_le_bytes(buf.subrange(b + 34, b + 36))
    &&& m.LoadCount == spec_u16_from_le_bytes(buf.subrange(b + 36, b + 38))
    &&& m.OffsetToFileName == spec_u16_from_le_bytes(buf.subrange(b + 38, b + 40))
    &&& m.FullPathName@ == buf.subrange(b + 40, b + 296)
}

/// How many module records an `RTL_PROCESS_MODULES` buffer holds: the
/// `NumberOfModules` count, limited to the records that lie wholly inside
/// the buffer.
pub open spec fn module_count(buf: Seq<u8>) -> nat {
    if buf.len() < MODULES_OFFSET {
        0
    } else {
        let declared = spec_u32_from_le_bytes(buf.subrange(0, 4)) as nat;
        let room = ((buf.len() - MODULES_OFFSET) / (MODULE_RECORD_SIZE as int)) as nat;
        if declared <= room {
            declared
        } else {
            room
        }
    }
}

/// Reads one module record at byte offset `b` of `buf`.
fn read_module_record(buf: &[u8], b: usize) -> (m: RTL_PROCESS_MODULE_INFORMATION)
    requires
        b + MODULE_RECORD_SIZE <= buf@.len(),
    ensures
        is_module_record(m, buf@, b as int),
{
    let n = buf.len();
    let mut path = [0u8; 256];
    let mut i: usize = 0;
    while i < FULL_PATH_SIZE
        invariant
            b + MODULE_RECORD_SIZE <= buf@.len(),
            n == buf@.len(),
            i <= FULL_PATH_SIZE,
            forall|k: int| 0 <= k < i ==> path@[k] == buf@[b + FULL_PATH_OFFSET + k],
        decreases FULL_PATH_SIZE - i,
    {
        path[i] = buf[b + FULL_PATH_OFFSET + i];
        i = i + 1;
    }
    let m = RTL_PROCESS_MODULE_INFORMATION {
        Section: vstd::bytes::u64_from_le_bytes(&buf[b..b + 8]),
        MappedBase: vstd::bytes::u64_from_le_bytes(&buf[b + 8..b + 16]),
        ImageBase: vstd::bytes::u64_from_le_bytes(&buf[b + 16..b + 24]),
        ImageSize: vstd::bytes::u32_from_le_bytes(&buf[b + 24..b + 28]),
        Flags: vstd::bytes::u32_from_le_bytes(&buf[b + 28..b + 32]),
        LoadOrderIndex: vstd::bytes::u16_from_le_bytes(&buf[b + 32..b + 34]),
        InitOrderIndex: vstd::bytes::u16_from_le_bytes(&buf[b + 34..b + 36]),
        LoadCount: vstd::bytes::u16_from_le_bytes(&buf[b + 36..b + 38]),
        OffsetToFileName: vstd::bytes::u16_from_le_bytes(&buf[b + 38..b + 40]),
        FullPathName: path,
    };
    assert(m.FullPathName@ =~= buf@.subrange(b + 40, b + 296));
    m
}

/// Decodes the module records of an `RTL_PROCESS_MODULES` buffer, as
/// returned by `ZwQuerySystemInformation(SystemModuleInformation, ..)`.
pub fn parse_process_modules(buf: &[u8]) -> (r: Vec<RTL_PROCESS_MODULE_INFORMATION>)
    ensures
        r@.len() == module_count(buf@),
        forall|i: int| 0 <= i < r@.len() ==> is_module_record(#[trigger] r@[i], buf@, MODULES_OFFSET + i * MODULE_RECORD_SIZE),
{
    let mut modules: Vec<RTL_PROCESS_MODULE_INFORMATION> = Vec::new();
    if buf.len() < MODULES_OFFSET {
        return modules;
    }
    let declared = vstd::bytes::u32_from_le_bytes(&buf[0..4]) as usize;
    let room = (buf.len() - MODULES_OFFSET) / MODULE_RECORD_SIZE;
    let count = if declared <= room { declared } else { room };
    let n = buf.len();
    let mut i: usize = 0;
    while i < count
        invariant
            count <= room,
            room == (buf@.len() - MODULES_OFFSET) / (MODULE_RECORD_SIZE as int),
            buf@.len() >= MODULES_OFFSET,
            n == buf@.len(),
            i <= count,
            modules@.len() == i,
            forall|k: int| 0 <= k < i ==> is_module_record(#[trigger] modules@[k], buf@, MODULES_OFFSET + k * MODULE_RECORD_SIZE),
        decreases count - i,
    {
        proof {
            assert(i < room);
            assert(MODULES_OFFSET + i * MODULE_RECORD_SIZE + MODULE_RECORD_SIZE <= buf@.len()) by (nonlinear_arith)
                requires
                    i < room,
                    room == (buf@.len() - MODULES_OFFSET) / (MODULE_RECORD_SIZE as int),
                    buf@.len() >= MODULES_OFFSET,
            ;
            assert(MODULES_OFFSET + i * MODULE_RECORD_SIZE + MODULE_RECORD_SIZE <= n);
        }
        let m = read_module_record(buf, MODULES_OFFSET + i * MODULE_RECORD_SIZE);
        modules.push(m);
        i = i + 1;
    }
    modules
}

} // verus!

verus! {

/// What `str::to_lowercase` gives for a string: its lowercase mapping under
/// Unicode's case tables.
pub uninterp spec fn lowercase(s: Seq<char>) -> Seq<char>;

/// `str::to_lowercase`: the lowercase equivalent of `s`, named by
/// [`lowercase`].
#[verifier::external_body]
fn to_lowercase(s: &str) -> (r: String)
    ensures
        r@ == lowercase(s@),
{
    s.to_lowercase()
}

/// `core::str::from_utf8`: succeeds exactly on valid UTF-8, giving the string
/// those bytes encode.
#[verifier::external_body]
fn str_from_utf8(bytes: &[u8]) -> (r: Option<&str>)
    ensures
        r is Some <==> valid_utf8(bytes@),
        r matches Some(s) ==> s@ == decode_utf8(bytes@),
{
    core::str::from_utf8(bytes).ok()
}

/// `str::get(offset..)`: the tail of `s` from byte `offset`, when that offset
/// is within the string and on a character boundary.
#[verifier::external_body]
fn str_get_from(s: &str, offset: usize) -> (r: Option<&str>)
    ensures
        r is Some <==> (offset <= encode_utf8(s@).len() && is_char_boundary(encode_utf8(s@), offset as int)),
        r is Some ==> encode_utf8(r->0@) == encode_utf8(s@).subrange(offset as int, encode_utf8(s@).len() as int),
{
    s.get(offset..)
}

/// The bytes of `s` before its first NUL byte.
pub open spec fn nul_terminated(s: Seq<u8>) -> Seq<u8> {
    choose|r: Seq<u8>| is_until_nul(r, s)
}

proof fn lemma_until_nul_unique(r1: Seq<u8>, r2: Seq<u8>, s: Seq<u8>)
    requires
        is_until_nul(r1, s),
        is_until_nul(r2, s),
    ensures
        r1 == r2,
{
    if r1.len() < r2.len() {
        assert(r2[r1.len() as int] == s[r1.len() as int]);
    } else if r2.len() < r1.len() {
        assert(r1[r2.len() as int] == s[r2.len() as int]);
    }
    assert(r1 =~= r2);
}

proof fn lemma_nul_terminated(r: Seq<u8>, s: Seq<u8>)
    requires
        is_until_nul(r, s),
    ensures
        nul_terminated(s) == r,
{
    lemma_until_nul_unique(nul_terminated(s), r, s);
}

/// Whether a loaded module is the one named `target` (already lowercased):
/// its NUL-terminated full path must be valid UTF-8; lowercased, it must
/// equal `target`, or its part from `OffsetToFileName` on must.
pub open spec fn module_matches(m: RTL_PROCESS_MODULE_INFORMATION, target: Seq<char>) -> bool {
    let bytes = nul_terminated(m.FullPathName@);
    let path = lowercase(decode_utf8(bytes));
    let path_bytes = encode_utf8(path);
    let off = m.OffsetToFileName as int;
    &&& valid_utf8(bytes)
    &&& {
        ||| path == target
        ||| (off < path_bytes.len() && is_char_boundary(path_bytes, off)
            && decode_utf8(path_bytes.subrange(off, path_bytes.len() as int)) == target)
    }
}

/// `r` is the first module of `modules` that [`module_matches`] `target`, or
/// `None` when none does.
pub open spec fn is_first_match(r: Option<RTL_PROCESS_MODULE_INFORMATION>, modules: Seq<RTL_PROCESS_MODULE_INFORMATION>, target: Seq<char>) -> bool {
    match r {
        Some(m) => exists|i: int|
            {
                &&& 0 <= i < modules.len()
                &&& #[trigger] modules[i] == m
                &&& module_matches(m, target)
                &&& forall|k: int| 0 <= k < i ==> !module_matches(#[trigger] modules[k], target)
            },
        None => forall|k: int| 0 <= k < modules.len() ==> !module_matches(#[trigger] modules[k], target),
    }
}

/// Whether one module is the one named `target` (lowercase).
fn module_is(m: &RTL_PROCESS_MODULE_INFORMATION, target: &String) -> (r: bool)
    ensures
        r == module_matches(*m, target@),
{
    let full = m.FullPathName.as_slice();
    let path_bytes = crate::nul_prefix(full);
    proof {
        lemma_nul_terminated(path_bytes@, m.FullPathName@);
    }
    let path = match str_from_utf8(path_bytes) {
        Some(p) => p,
        None => return false,
    };
    let path = to_lowercase(path);
    if path == *target {
        return true;
    }
    let offset = m.OffsetToFileName as usize;
    let path_str = path.as_str();
    assert(path_str@ == lowercase(decode_utf8(nul_terminated(m.FullPathName@))));
    if offset < path_str.as_bytes().len() {
        match str_get_from(path_str, offset) {
            Some(file) => {
                proof {
                    vstd::utf8::encode_utf8_decode_utf8(file@);
                }
                let file = file.to_owned();
                if file == *target {
                    return true;
                }
                assert(decode_utf8(encode_utf8(path_str@).subrange(offset as int, encode_utf8(path_str@).len() as int)) != target@);
            },
            None => {
                assert(!is_char_boundary(encode_utf8(path_str@), offset as int));
            },
        }
    } else {
        assert(offset >= encode_utf8(path_str@).len());
    }
    assert(path@ != target@);
    assert(!module_matches(*m, target@));
    false
}

/// The first of `modules` that is named `target` (lowercase).
fn find_module(modules: &Vec<RTL_PROCESS_MODULE_INFORMATION>, target: &String) -> (r: Option<RTL_PROCESS_MODULE_INFORMATION>)
    ensures
        is_first_match(r, modules@, target@),
{
    let mut i: usize = 0;
    while i < modules.len()
        invariant
            i <= modules@.len(),
            forall|k: int| 0 <= k < i ==> !module_matches(#[trigger] modules@[k], target@),
        decreases modules@.len() - i,
    {
        if module_is(&modules[i], target) {
            return Some(modules[i]);
        }
        i = i + 1;
    }
    None
}

} // verus!

verus! {

/// `mods` are the module records decoded from the buffer `buf`.
pub open spec fn modules_of(mods: Seq<RTL_PROCESS_MODULE_INFORMATION>, buf: Seq<u8>) -> bool {
    &&& mods.len() == module_count(buf)
    &&& forall|i: int| 0 <= i < mods.len() ==> is_module_record(#[trigger] mods[i], buf, MODULES_OFFSET + i * MODULE_RECORD_SIZE)
}

/// The outcome of a module search once the module list was returned with
/// status `status` in `buf`: that status when it is an error, otherwise the
/// first listed module named `target`.
pub open spec fn search_outcome(r: Result<Option<RTL_PROCESS_MODULE_INFORMATION>, NTSTATUS>, status: NTSTATUS, buf: Seq<u8>, target: Seq<char>) -> bool {
    if status < 0 {
        r == Err::<Option<RTL_PROCESS_MODULE_INFORMATION>, NTSTATUS>(status)
    } else {
        exists|mods: Seq<RTL_PROCESS_MODULE_INFORMATION>|
            #[trigger] modules_of(mods, buf) && (r matches Ok(o) && is_first_match(o, mods, target))
    }
}

/// What [`query_system_module`] returns for `module_name`, given the answers of
/// the size query and of the listing.
pub open spec fn module_query<P: FnOnce() -> (NTSTATUS, u32), Q: FnOnce(u32) -> (NTSTATUS, Vec<u8>)>(
    r: Result<Option<RTL_PROCESS_MODULE_INFORMATION>, NTSTATUS>,
    module_name: Seq<char>,
    query_size: P,
    query_modules: Q,
) -> bool {
    if module_name.len() == 0 {
        r == Err::<Option<RTL_PROCESS_MODULE_INFORMATION>, NTSTATUS>(STATUS_INVALID_PARAMETER)
    } else {
        exists|probe: (NTSTATUS, u32)|
            {
                &&& #[trigger] call_ensures(query_size, (), probe)
                &&& if probe.0 != STATUS_INFO_LENGTH_MISMATCH && probe.0 < 0 {
                    r == Err::<Option<RTL_PROCESS_MODULE_INFORMATION>, NTSTATUS>(probe.0)
                } else {
                    exists|listing: (NTSTATUS, Vec<u8>)|
                        #[trigger] call_ensures(query_modules, (probe.1,), listing)
                            && search_outcome(r, listing.0, listing.1@, lowercase(module_name))
                }
            }
    }
}

/// The module queries may be made for `module_name`: none for an empty
/// name; the size query otherwise; the listing only after a size query that
/// succeeded or reported `STATUS_INFO_LENGTH_MISMATCH`, with the size it
/// answered.
pub open spec fn queries_allowed<P: FnOnce() -> (NTSTATUS, u32), Q: FnOnce(u32) -> (NTSTATUS, Vec<u8>)>(
    module_name: Seq<char>,
    query_size: P,
    query_modules: Q,
) -> bool {
    module_name.len() != 0 ==> {
        &&& call_requires(query_size, ())
        &&& forall|probe: (NTSTATUS, u32)|
            #[trigger] call_ensures(query_size, (), probe) && !(probe.0 != STATUS_INFO_LENGTH_MISMATCH && probe.0 < 0)
                ==> call_requires(query_modules, (probe.1,))
    }
}

/// Looks up a loaded kernel module by its full NT path or its file name,
/// compared case-insensitively.
///
/// `query_size` performs `ZwQuerySystemInformation(SystemModuleInformation)`
/// with an empty buffer and returns its status and the required size;
/// `query_modules` performs it with a buffer of the given size and returns
/// its status and the buffer. An empty name is refused with
/// `STATUS_INVALID_PARAMETER` before any query; a failing status (other than
/// `STATUS_INFO_LENGTH_MISMATCH` for the size query) is returned as the
/// error. `Ok(None)` means no listed module has that name.
pub fn query_system_module<P: FnOnce() -> (NTSTATUS, u32), Q: FnOnce(u32) -> (NTSTATUS, Vec<u8>)>(
    module_name: &str,
    query_size: P,
    query_modules: Q,
) -> (r: Result<Option<RTL_PROCESS_MODULE_INFORMATION>, NTSTATUS>)
    requires
        queries_allowed(module_name@, query_size, query_modules),
    ensures
        module_query(r, module_name@, query_size, query_modules),
{
    if module_name.is_empty() {
        return Err(STATUS_INVALID_PARAMETER);
    }
    let target = to_lowercase(module_name);
    let probe = query_size();
    let (status, req_size) = probe;
    if status != STATUS_INFO_LENGTH_MISMATCH && !nt_success(status) {
        return Err(status);
    }
    let listing = query_modules(req_size);
    let (status, buffer) = listing;
    if !nt_success(status) {
        let r = Err(status);
        assert(search_outcome(r, listing.0, listing.1@, lowercase(module_name@)));
        return r;
    }
    let modules = parse_process_modules(buffer.as_slice());
    let found = find_module(&modules, &target);
    let r = Ok(found);
    assert(modules_of(modules@, listing.1@));
    assert(search_outcome(r, listing.0, listing.1@, lowercase(module_name@)));
    r
}

/// Maps a module search to the image base of the module found.
pub open spec fn base_of(q: Result<Option<RTL_PROCESS_MODULE_INFORMATION>, NTSTATUS>) -> Result<Option<u64>, NTSTATUS> {
    match q {
        Ok(Some(m)) => Ok(Some(m.ImageBase)),
        Ok(None) => Ok(None),
        Err(s) => Err(s),
    }
}

/// Returns the image base of a loaded kernel module, found as
/// [`query_system_module`] finds it; `Ok(None)` when it is not loaded.
pub fn get_system_module_base_address<P: FnOnce() -> (NTSTATUS, u32), Q: FnOnce(u32) -> (NTSTATUS, Vec<u8>)>(
    module_name: &str,
    query_size: P,
    query_modules: Q,
) -> (r: Result<Option<u64>, NTSTATUS>)
    requires
        queries_allowed(module_name@, query_size, query_modules),
    ensures
        exists|q: Result<Option<RTL_PROCESS_MODULE_INFORMATION>, NTSTATUS>|
            #[trigger] module_query(q, module_name@, query_size, query_modules) && r == base_of(q),
{
    let q = query_system_module(module_name, query_size, query_modules);
    let r = match q {
        Ok(Some(m)) => Ok(Some(m.ImageBase)),
        Ok(None) => Ok(None),
        Err(s) => Err(s),
    };
    assert(module_query(q, module_name@, query_size, query_modules));
    r
}

/// The NUL-terminated byte string of `name`, as passed to
/// `RtlFindExportedRoutineByName`.
pub open spec fn c_string(name: Seq<char>) -> Seq<u8> {
    encode_utf8(name).push(0u8)
}

/// The routine address a lookup reported, `None` for a null address.
pub open spec fn non_null(addr: u64) -> Option<u64> {
    if addr == 0 {
        None
    } else {
        Some(addr)
    }
}

/// Resolves an export of the module loaded at `module_base`.
///
/// `lookup` performs `RtlFindExportedRoutineByName` with the module base and
/// the NUL-terminated export name, returning the routine address or zero. A
/// null base or an empty name gives `None` without any lookup.
pub fn find_exported_routine_by_name<L: FnOnce(u64, &[u8]) -> u64>(module_base: u64, exported_name: &str, lookup: L) -> (r: Option<u64>)
    requires
        module_base != 0 && exported_name@.len() != 0 ==> forall|n: &[u8]|
            n@ == c_string(exported_name@) ==> #[trigger] call_requires(lookup, (module_base, n)),
    ensures
        module_base == 0 || exported_name@.len() == 0 ==> r is None,
        module_base != 0 && exported_name@.len() != 0 ==> exists|name: &[u8], addr: u64|
            {
                &&& name@ == c_string(exported_name@)
                &&& #[trigger] call_ensures(lookup, (module_base, name), addr)
                &&& r == non_null(addr)
            },
{
    if module_base == 0 || exported_name.is_empty() {
        return None;
    }
    let mut name = vstd::slice::slice_to_vec(exported_name.as_bytes());
    name.push(0u8);
    let addr = lookup(module_base, name.as_slice());
    if addr == 0 {
        None
    } else {
        Some(addr)
    }
}

/// `base` is an image base that the module search for `module_name` can
/// find.
pub open spec fn base_obtainable<P: FnOnce() -> (NTSTATUS, u32), Q: FnOnce(u32) -> (NTSTATUS, Vec<u8>)>(
    base: u64,
    module_name: Seq<char>,
    query_size: P,
    query_modules: Q,
) -> bool {
    exists|q: Result<Option<RTL_PROCESS_MODULE_INFORMATION>, NTSTATUS>|
        #[trigger] module_query(q, module_name, query_size, query_modules) && base_of(q) == Ok::<Option<u64>, NTSTATUS>(Some(base))
}

/// What [`resolve_system_routine`] returns once the module search answered
/// `base`: the search's error, `None` when the module is not loaded, else
/// the export found at that base.
pub open spec fn routine_outcome<L: FnOnce(u64, &[u8]) -> u64>(r: Result<Option<u64>, NTSTATUS>, base: Result<Option<u64>, NTSTATUS>, exported_name: Seq<char>, lookup: L) -> bool {
    match base {
        Err(s) => r == Err::<Option<u64>, NTSTATUS>(s),
        Ok(None) => r == Ok::<Option<u64>, NTSTATUS>(None),
        Ok(Some(b)) => if b == 0 {
            r == Ok::<Option<u64>, NTSTATUS>(None)
        } else {
            exists|name: &[u8], addr: u64|
                {
                    &&& name@ == c_string(exported_name)
                    &&& #[trigger] call_ensures(lookup, (b, name), addr)
                    &&& r == Ok::<Option<u64>, NTSTATUS>(non_null(addr))
                }
        },
    }
}

/// Resolves an exported routine by module and symbol name: the module is
/// found as [`get_system_module_base_address`] finds it, then the export as
/// [`find_exported_routine_by_name`] resolves it.
///
/// Either name empty gives `STATUS_INVALID_PARAMETER` before any query.
/// `Ok(None)` when the module or the export cannot be found.
pub fn resolve_system_routine<P: FnOnce() -> (NTSTATUS, u32), Q: FnOnce(u32) -> (NTSTATUS, Vec<u8>), L: FnOnce(u64, &[u8]) -> u64>(
    module_name: &str,
    exported_name: &str,
    query_size: P,
    query_modules: Q,
    lookup: L,
) -> (r: Result<Option<u64>, NTSTATUS>)
    requires
        exported_name@.len() != 0 ==> queries_allowed(module_name@, query_size, query_modules),
        forall|b: u64, n: &[u8]|
            #![trigger base_obtainable(b, module_name@, query_size, query_modules), n@]
            exported_name@.len() != 0 && b != 0 && n@ == c_string(exported_name@)
                && base_obtainable(b, module_name@, query_size, query_modules)
                ==> call_requires(lookup, (b, n)),
    ensures
        module_name@.len() == 0 || exported_name@.len() == 0 ==> r == Err::<Option<u64>, NTSTATUS>(STATUS_INVALID_PARAMETER),
        module_name@.len() != 0 && exported_name@.len() != 0 ==> exists|q: Result<Option<RTL_PROCESS_MODULE_INFORMATION>, NTSTATUS>|
            #[trigger] module_query(q, module_name@, query_size, query_modules)
                && routine_outcome(r, base_of(q), exported_name@, lookup),
{
    if module_name.is_empty() || exported_name.is_empty() {
        return Err(STATUS_INVALID_PARAMETER);
    }
    let base = get_system_module_base_address(module_name, query_size, query_modules);
    match base {
        Ok(Some(b)) => {
            proof {
                assert(base_obtainable(b, module_name@, query_size, query_modules));
                assert forall|n: &[u8]| b != 0 && n@ == c_string(exported_name@) implies call_requires(lookup, (b, n)) by {
                    assert(base_obtainable(b, module_name@, query_size, query_modules));
                }
            }
            Ok(find_exported_routine_by_name(b, exported_name, lookup))
        },
        Ok(None) => Ok(None),
        Err(s) => Err(s),
    }
}

} // verus!

verus! {

/// Module names are compared case-insensitively: two nonempty names with the
/// same lowercase form give the same search outcomes.
pub proof fn lemma_query_ignores_case<P: FnOnce() -> (NTSTATUS, u32), Q: FnOnce(u32) -> (NTSTATUS, Vec<u8>)>(
    r: Result<Option<RTL_PROCESS_MODULE_INFORMATION>, NTSTATUS>,
    name1: Seq<char>,
    name2: Seq<char>,
    query_size: P,
    query_modules: Q,
)
    requires
        name1.len() > 0,
        name2.len() > 0,
        lowercase(name1) == lowercase(name2),
    ensures
        module_query(r, name1, query_size, query_modules) <==> module_query(r, name2, query_size, query_modules),
{
}

} // verus!
