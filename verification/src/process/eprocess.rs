//! Run-time discovery of `EPROCESS` field offsets.
//!
//! Windows does not keep `EPROCESS` stable across releases. Instead of fixed
//! offsets, this module recovers them from exported accessor routines of the
//! kernel, which simple accessors implement as
//!
//! ```text
//! mov rax, [rcx + offset]
//! ret
//! ```
//!
//! The displacement of that memory operand is the field offset. Recovered
//! offsets are cached (zero meaning "not known yet") and reused.
use vstd::prelude::*;
use crate::NTSTATUS;
use crate::disasm::{
    decode_at, decoded_at, DecodedInstruction, MNEMONIC_MOV, MNEMONIC_RET, OP_KIND_MEMORY, OP_KIND_REGISTER,
    REGISTER_NONE, REGISTER_RAX, REGISTER_RCX,
};
use crate::process::{SearchError, NTOSKRNL_PATH};

verus! {

/// Number of bytes of an accessor routine that are analysed.
pub const PAGE_SIZE: usize = 4096;

/// Accessor of the `Peb` member.
pub const PEB_ROUTINE: &'static str = "PsGetProcessPeb";

/// Accessor of the `UniqueProcessId` member.
pub const PROCESS_ID_ROUTINE: &'static str = "PsGetProcessId";

/// Accessor of the `SectionBaseAddress` member.
pub const IMAGE_BASE_ROUTINE: &'static str = "PsGetProcessSectionBaseAddress";

/// Offset of `ActiveProcessLinks` in `EPROCESS` for the given Windows build
/// number: `0x1D8` for builds 26100 and 26200, `0x448` for every other build.
pub fn get_active_process_links_offset(build_number: u32) -> (r: usize)
    ensures
        r == (if build_number == 26100 || build_number == 26200 { 0x1D8usize } else { 0x448usize }),
{
    match build_number {
        26100 | 26200 => 0x1D8,
        _ => 0x448,
    }
}

/// Whether `insn` is `mov rax, [rcx + displacement]`: a `mov` into `RAX`
/// from a memory operand based on `RCX`, with no index register and no
/// segment register.
pub open spec fn is_field_accessor(insn: DecodedInstruction) -> bool {
    &&& insn.mnemonic == MNEMONIC_MOV
    &&& insn.op0_kind == OP_KIND_REGISTER
    &&& insn.op0_register == REGISTER_RAX
    &&& insn.op1_kind == OP_KIND_MEMORY
    &&& insn.memory_base == REGISTER_RCX
    &&& insn.memory_index == REGISTER_NONE
    &&& insn.memory_segment == REGISTER_NONE
}

/// What the analysis of one decoded instruction decides: `Some(None)` at a
/// `ret`, `Some(Some(offset))` at a field accessor, `None` to go on.
pub fn classify_instruction(insn: &DecodedInstruction) -> (r: Option<Option<u64>>)
    ensures
        insn.mnemonic == MNEMONIC_RET ==> r == Some(None::<u64>),
        insn.mnemonic != MNEMONIC_RET && is_field_accessor(*insn) ==> r == Some(Some(insn.memory_displacement64)),
        insn.mnemonic != MNEMONIC_RET && !is_field_accessor(*insn) ==> r == None::<Option<u64>>,
{
    if insn.mnemonic == MNEMONIC_RET {
        return Some(None);
    }
    if insn.mnemonic == MNEMONIC_MOV && insn.op0_kind == OP_KIND_REGISTER && insn.op0_register == REGISTER_RAX
        && insn.op1_kind == OP_KIND_MEMORY && insn.memory_base == REGISTER_RCX && insn.memory_index == REGISTER_NONE
        && insn.memory_segment == REGISTER_NONE {
        return Some(Some(insn.memory_displacement64));
    }
    None
}

/// How many bytes of `code` remain from `pos`.
pub open spec fn code_remaining(code: Seq<u8>, pos: nat) -> nat {
    if pos < code.len() {
        (code.len() - pos) as nat
    } else {
        0
    }
}

/// The field offset found in the routine whose first bytes are `code` and
/// whose address is `ip`, decoding from position `pos` on: instructions are
/// decoded in turn until a `ret` (no offset), a field accessor (its
/// displacement) or the end of `code` (no offset).
pub open spec fn accessor_offset(code: Seq<u8>, ip: u64, pos: nat) -> Option<u64>
    decreases code_remaining(code, pos),
{
    if pos >= code.len() {
        None
    } else {
        let insn = decoded_at(code, vstd::wrapping::u64_specs::wrapping_add(ip, pos as u64), pos);
        if insn.mnemonic == MNEMONIC_RET {
            None
        } else if is_field_accessor(insn) {
            Some(insn.memory_displacement64)
        } else if insn.len == 0 {
            None
        } else {
            accessor_offset(code, ip, (pos + insn.len) as nat)
        }
    }
}

/// Recovers a structure field offset from the kernel accessor routine at
/// `function_address`, whose first bytes are `code`: the displacement of the
/// first `mov rax, [rcx + offset]` met before any `ret`, or `None`.
pub fn find_structure_offset(function_address: u64, code: &[u8]) -> (r: Option<u64>)
    ensures
        r == accessor_offset(code@, function_address, 0),
{
    let mut pos: usize = 0;
    while pos < code.len()
        invariant
            pos <= code@.len(),
            accessor_offset(code@, function_address, 0) == accessor_offset(code@, function_address, pos as nat),
        decreases code_remaining(code@, pos as nat),
    {
        let insn = decode_at(code, function_address.wrapping_add(pos as u64), pos);
        match classify_instruction(&insn) {
            Some(found) => return found,
            None => {},
        }
        pos = pos + insn.len;
    }
    None
}

/// `read_code` may be called at every address that `resolve` can answer
/// for a routine.
pub open spec fn code_readable<R: Fn(&str, &str) -> Result<Option<u64>, NTSTATUS>, C: Fn(u64) -> Vec<u8>>(resolve: R, read_code: C) -> bool {
    forall|m: &str, e: &str, a: u64|
        #[trigger] call_ensures(resolve, (m, e), Ok::<Option<u64>, NTSTATUS>(Some(a))) ==> call_requires(read_code, (a,))
}

/// What [`find_offset_from_routine`] returns once the routine resolved to
/// `routine`: an unknown function when it did not resolve, otherwise the
/// offset found in the code read at its address.
pub open spec fn routine_offset_outcome<C: FnOnce(u64) -> Vec<u8>>(r: Result<Option<u64>, SearchError>, routine: Result<Option<u64>, NTSTATUS>, read_code: C) -> bool {
    match routine {
        Ok(Some(addr)) => exists|code: Vec<u8>|
            #[trigger] call_ensures(read_code, (addr,), code)
                && r == Ok::<Option<u64>, SearchError>(accessor_offset(code@, addr, 0)),
        _ => r == Err::<Option<u64>, SearchError>(SearchError::UnknownFunction),
    }
}

/// Resolves an exported kernel routine and recovers the structure field
/// offset it reads.
///
/// `resolve` looks the routine up (as `resolve_system_routine` does) and
/// `read_code` copies [`PAGE_SIZE`] bytes of code from its address. A routine
/// that cannot be resolved gives [`SearchError::UnknownFunction`].
pub fn find_offset_from_routine<R: FnOnce(&str, &str) -> Result<Option<u64>, NTSTATUS>, C: FnOnce(u64) -> Vec<u8>>(
    module_name: &str,
    routine_name: &str,
    resolve: R,
    read_code: C,
) -> (r: Result<Option<u64>, SearchError>)
    requires
        call_requires(resolve, (module_name, routine_name)),
        forall|a: u64|
            #[trigger] call_ensures(resolve, (module_name, routine_name), Ok::<Option<u64>, NTSTATUS>(Some(a)))
                ==> call_requires(read_code, (a,)),
    ensures
        exists|routine: Result<Option<u64>, NTSTATUS>|
            #[trigger] call_ensures(resolve, (module_name, routine_name), routine)
                && routine_offset_outcome(r, routine, read_code),
{
    let routine = resolve(module_name, routine_name);
    let addr = match routine {
        Ok(Some(a)) => a,
        _ => return Err(SearchError::UnknownFunction),
    };
    let code = read_code(addr);
    let r = Ok(find_structure_offset(addr, code.as_slice()));
    assert(routine_offset_outcome(r, routine, read_code));
    r
}

/// The offsets of `EPROCESS` fields recovered so far; zero means not known.
pub struct EprocessOffsets {
    pub peb: u64,
    pub process_id: u64,
    pub image_base: u64,
}

impl EprocessOffsets {
    /// No offset known yet.
    pub fn new() -> (r: Self)
        ensures
            r.peb == 0 && r.process_id == 0 && r.image_base == 0,
    {
        EprocessOffsets { peb: 0, process_id: 0, image_base: 0 }
    }
}

/// What is cached after a search that returned `r`, from `cached` before:
/// the offset found, or `cached` unchanged.
pub open spec fn cache_after_search(r: Result<Option<u64>, SearchError>, cached: u64) -> u64 {
    match r {
        Ok(Some(offset)) => offset,
        _ => cached,
    }
}

/// Searches a structure field offset and caches it: a nonzero `cache` is
/// returned at once; otherwise the offset is recovered from `routine_name` of
/// `module_name` (see [`find_offset_from_routine`]) and, when found, stored.
/// While the cache is set neither closure may be called: their
/// preconditions are demanded only when it is zero, and `read_code` only at
/// an address that `resolve` answered.
pub fn search_cached_offset<R: Fn(&str, &str) -> Result<Option<u64>, NTSTATUS>, C: Fn(u64) -> Vec<u8>>(
    cache: &mut u64,
    module_name: &str,
    routine_name: &str,
    resolve: &R,
    read_code: &C,
) -> (r: Result<Option<u64>, SearchError>)
    requires
        *old(cache) == 0 ==> call_requires(*resolve, (module_name, routine_name)) && code_readable(*resolve, *read_code),
    ensures
        *old(cache) != 0 ==> r == Ok::<Option<u64>, SearchError>(Some(*old(cache))) && *final(cache) == *old(cache),
        *old(cache) == 0 ==> exists|routine: Result<Option<u64>, NTSTATUS>|
            {
                &&& #[trigger] call_ensures(*resolve, (module_name, routine_name), routine)
                &&& routine_offset_outcome(r, routine, *read_code)
                &&& *final(cache) == cache_after_search(r, *old(cache))
            },
{
    let cached_offset = *cache;
    if cached_offset != 0 {
        return Ok(Some(cached_offset));
    }
    let found = find_offset_from_routine(module_name, routine_name, resolve, read_code);
    match found {
        Ok(Some(offset)) => {
            *cache = offset;
        },
        _ => {},
    }
    found
}

} // verus!

verus! {

/// What a cached offset search for `routine_name` of the kernel image
/// returns and caches, from `before` to `after`: a known offset at once,
/// otherwise the offset recovered from the routine, cached when found.
pub open spec fn cached_search<R: Fn(&str, &str) -> Result<Option<u64>, NTSTATUS>, C: Fn(u64) -> Vec<u8>>(
    r: Result<Option<u64>, SearchError>,
    before: u64,
    after: u64,
    routine_name: &str,
    resolve: R,
    read_code: C,
) -> bool {
    &&& before != 0 ==> r == Ok::<Option<u64>, SearchError>(Some(before)) && after == before
    &&& before == 0 ==> exists|routine: Result<Option<u64>, NTSTATUS>|
        {
            &&& #[trigger] call_ensures(resolve, (NTOSKRNL_PATH, routine_name), routine)
            &&& routine_offset_outcome(r, routine, read_code)
            &&& after == cache_after_search(r, before)
        }
}

/// `o` is an offset that a cached search for `routine_name`, starting from
/// the cache `before`, can return.
pub open spec fn offset_obtainable<R: Fn(&str, &str) -> Result<Option<u64>, NTSTATUS>, C: Fn(u64) -> Vec<u8>>(
    before: u64,
    o: u64,
    routine_name: &str,
    resolve: R,
    read_code: C,
) -> bool {
    exists|after: u64| #[trigger] cached_search(Ok::<Option<u64>, SearchError>(Some(o)), before, after, routine_name, resolve, read_code)
}

/// What a cached search for `routine_name` of the kernel image demands of
/// its closures while the cache holds `cached`: nothing once an offset is
/// known; otherwise that `resolve` accepts the routine and that `read_code`
/// accepts every address `resolve` answers.
pub open spec fn search_allowed<R: Fn(&str, &str) -> Result<Option<u64>, NTSTATUS>, C: Fn(u64) -> Vec<u8>>(
    cached: u64,
    routine_name: &str,
    resolve: R,
    read_code: C,
) -> bool {
    cached == 0 ==> call_requires(resolve, (NTOSKRNL_PATH, routine_name)) && code_readable(resolve, read_code)
}

/// Recovers the offset of the `Peb` member of `EPROCESS` from
/// `PsGetProcessPeb`, caching it in `offsets.peb`.
pub fn search_peb_offset<R: Fn(&str, &str) -> Result<Option<u64>, NTSTATUS>, C: Fn(u64) -> Vec<u8>>(
    offsets: &mut EprocessOffsets,
    resolve: &R,
    read_code: &C,
) -> (r: Result<Option<u64>, SearchError>)
    requires
        search_allowed(old(offsets).peb, PEB_ROUTINE, *resolve, *read_code),
    ensures
        cached_search(r, old(offsets).peb, final(offsets).peb, PEB_ROUTINE, *resolve, *read_code),
        final(offsets).process_id == old(offsets).process_id,
        final(offsets).image_base == old(offsets).image_base,
{
    search_cached_offset(&mut offsets.peb, NTOSKRNL_PATH, PEB_ROUTINE, resolve, read_code)
}

/// Recovers the offset of the `UniqueProcessId` member of `EPROCESS` from
/// `PsGetProcessId`, caching it in `offsets.process_id`.
pub fn search_process_id_offset<R: Fn(&str, &str) -> Result<Option<u64>, NTSTATUS>, C: Fn(u64) -> Vec<u8>>(
    offsets: &mut EprocessOffsets,
    resolve: &R,
    read_code: &C,
) -> (r: Result<Option<u64>, SearchError>)
    requires
        search_allowed(old(offsets).process_id, PROCESS_ID_ROUTINE, *resolve, *read_code),
    ensures
        cached_search(r, old(offsets).process_id, final(offsets).process_id, PROCESS_ID_ROUTINE, *resolve, *read_code),
        final(offsets).peb == old(offsets).peb,
        final(offsets).image_base == old(offsets).image_base,
{
    search_cached_offset(&mut offsets.process_id, NTOSKRNL_PATH, PROCESS_ID_ROUTINE, resolve, read_code)
}

/// Recovers the offset of the `SectionBaseAddress` member of `EPROCESS` from
/// `PsGetProcessSectionBaseAddress`, caching it in `offsets.image_base`.
pub fn search_process_image_base_offset<R: Fn(&str, &str) -> Result<Option<u64>, NTSTATUS>, C: Fn(u64) -> Vec<u8>>(
    offsets: &mut EprocessOffsets,
    resolve: &R,
    read_code: &C,
) -> (r: Result<Option<u64>, SearchError>)
    requires
        search_allowed(old(offsets).image_base, IMAGE_BASE_ROUTINE, *resolve, *read_code),
    ensures
        cached_search(r, old(offsets).image_base, final(offsets).image_base, IMAGE_BASE_ROUTINE, *resolve, *read_code),
        final(offsets).peb == old(offsets).peb,
        final(offsets).process_id == old(offsets).process_id,
{
    search_cached_offset(&mut offsets.image_base, NTOSKRNL_PATH, IMAGE_BASE_ROUTINE, resolve, read_code)
}

/// Reads a field of the `EPROCESS` at `eprocess`, once its offset search
/// answered `offset`: the search's error, `None` for an unknown offset, or
/// the value `read_u64` reads at `eprocess + offset`.
fn read_eprocess_field<F: Fn(u64) -> u64>(eprocess: u64, offset: Result<Option<u64>, SearchError>, read_u64: &F) -> (r: Result<Option<u64>, SearchError>)
    requires
        offset matches Ok(Some(o)) ==> call_requires(*read_u64, (vstd::wrapping::u64_specs::wrapping_add(eprocess, o),)),
    ensures
        field_outcome(r, eprocess, offset, *read_u64),
{
    match offset {
        Err(e) => Err(e),
        Ok(None) => Ok(None),
        Ok(Some(o)) => Ok(Some(read_u64(eprocess.wrapping_add(o)))),
    }
}

/// What reading an `EPROCESS` field gives once its offset search answered
/// `offset`.
pub open spec fn field_outcome<F: Fn(u64) -> u64>(r: Result<Option<u64>, SearchError>, eprocess: u64, offset: Result<Option<u64>, SearchError>, read_u64: F) -> bool {
    match offset {
        Err(e) => r == Err::<Option<u64>, SearchError>(e),
        Ok(None) => r == Ok::<Option<u64>, SearchError>(None),
        Ok(Some(o)) => exists|v: u64|
            #[trigger] call_ensures(read_u64, (vstd::wrapping::u64_specs::wrapping_add(eprocess, o),), v)
                && r == Ok::<Option<u64>, SearchError>(Some(v)),
    }
}

/// Returns the Process Environment Block pointer of the `EPROCESS` at
/// `eprocess`, read at the offset that [`search_peb_offset`] recovers.
/// `Ok(None)` when the offset could not be recovered.
pub fn get_process_peb<R: Fn(&str, &str) -> Result<Option<u64>, NTSTATUS>, C: Fn(u64) -> Vec<u8>, F: Fn(u64) -> u64>(
    eprocess: u64,
    offsets: &mut EprocessOffsets,
    resolve: &R,
    read_code: &C,
    read_u64: &F,
) -> (r: Result<Option<u64>, SearchError>)
    requires
        search_allowed(old(offsets).peb, PEB_ROUTINE, *resolve, *read_code),
        forall|o: u64|
            #[trigger] offset_obtainable(old(offsets).peb, o, PEB_ROUTINE, *resolve, *read_code)
                ==> call_requires(*read_u64, (vstd::wrapping::u64_specs::wrapping_add(eprocess, o),)),
    ensures
        exists|offset: Result<Option<u64>, SearchError>|
            #[trigger] cached_search(offset, old(offsets).peb, final(offsets).peb, PEB_ROUTINE, *resolve, *read_code)
                && field_outcome(r, eprocess, offset, *read_u64),
        final(offsets).process_id == old(offsets).process_id,
        final(offsets).image_base == old(offsets).image_base,
{
    let ghost before = offsets.peb;
    let offset = search_peb_offset(offsets, resolve, read_code);
    proof {
        if let Ok(Some(o)) = offset {
            assert(cached_search(offset, before, offsets.peb, PEB_ROUTINE, *resolve, *read_code));
            assert(offset_obtainable(before, o, PEB_ROUTINE, *resolve, *read_code));
        }
    }
    read_eprocess_field(eprocess, offset, read_u64)
}

/// Returns the process identifier of the `EPROCESS` at `eprocess`, read at
/// the offset that [`search_process_id_offset`] recovers. `Ok(None)` when the
/// offset could not be recovered.
pub fn get_process_id<R: Fn(&str, &str) -> Result<Option<u64>, NTSTATUS>, C: Fn(u64) -> Vec<u8>, F: Fn(u64) -> u64>(
    eprocess: u64,
    offsets: &mut EprocessOffsets,
    resolve: &R,
    read_code: &C,
    read_u64: &F,
) -> (r: Result<Option<u64>, SearchError>)
    requires
        search_allowed(old(offsets).process_id, PROCESS_ID_ROUTINE, *resolve, *read_code),
        forall|o: u64|
            #[trigger] offset_obtainable(old(offsets).process_id, o, PROCESS_ID_ROUTINE, *resolve, *read_code)
                ==> call_requires(*read_u64, (vstd::wrapping::u64_specs::wrapping_add(eprocess, o),)),
    ensures
        exists|offset: Result<Option<u64>, SearchError>|
            #[trigger] cached_search(offset, old(offsets).process_id, final(offsets).process_id, PROCESS_ID_ROUTINE, *resolve, *read_code)
                && field_outcome(r, eprocess, offset, *read_u64),
        final(offsets).peb == old(offsets).peb,
        final(offsets).image_base == old(offsets).image_base,
{
    let ghost before = offsets.process_id;
    let offset = search_process_id_offset(offsets, resolve, read_code);
    proof {
        if let Ok(Some(o)) = offset {
            assert(cached_search(offset, before, offsets.process_id, PROCESS_ID_ROUTINE, *resolve, *read_code));
            assert(offset_obtainable(before, o, PROCESS_ID_ROUTINE, *resolve, *read_code));
        }
    }
    read_eprocess_field(eprocess, offset, read_u64)
}

/// Returns the image base of the process at `eprocess` (where its executable
/// is mapped), read at the offset that [`search_process_image_base_offset`]
/// recovers. `Ok(None)` when the offset could not be recovered.
pub fn get_process_image_base<R: Fn(&str, &str) -> Result<Option<u64>, NTSTATUS>, C: Fn(u64) -> Vec<u8>, F: Fn(u64) -> u64>(
    eprocess: u64,
    offsets: &mut EprocessOffsets,
    resolve: &R,
    read_code: &C,
    read_u64: &F,
) -> (r: Result<Option<u64>, SearchError>)
    requires
        search_allowed(old(offsets).image_base, IMAGE_BASE_ROUTINE, *resolve, *read_code),
        forall|o: u64|
            #[trigger] offset_obtainable(old(offsets).image_base, o, IMAGE_BASE_ROUTINE, *resolve, *read_code)
                ==> call_requires(*read_u64, (vstd::wrapping::u64_specs::wrapping_add(eprocess, o),)),
    ensures
        exists|offset: Result<Option<u64>, SearchError>|
            #[trigger] cached_search(offset, old(offsets).image_base, final(offsets).image_base, IMAGE_BASE_ROUTINE, *resolve, *read_code)
                && field_outcome(r, eprocess, offset, *read_u64),
        final(offsets).peb == old(offsets).peb,
        final(offsets).process_id == old(offsets).process_id,
{
    let ghost before = offsets.image_base;
    let offset = search_process_image_base_offset(offsets, resolve, read_code);
    proof {
        if let Ok(Some(o)) = offset {
            assert(cached_search(offset, before, offsets.image_base, IMAGE_BASE_ROUTINE, *resolve, *read_code));
            assert(offset_obtainable(before, o, IMAGE_BASE_ROUTINE, *resolve, *read_code));
        }
    }
    read_eprocess_field(eprocess, offset, read_u64)
}

/// What the three searches, answering `r1`, `r2`, `r3` in that order,
/// give together: the first error; otherwise `false` when one of them found
/// no offset, `true` when all three did.
pub open spec fn all_offsets_outcome(
    r1: Result<Option<u64>, SearchError>,
    r2: Result<Option<u64>, SearchError>,
    r3: Result<Option<u64>, SearchError>,
) -> Result<bool, SearchError> {
    match (r1, r2, r3) {
        (Err(e), _, _) => Err(e),
        (_, Err(e), _) => Err(e),
        (_, _, Err(e)) => Err(e),
        (Ok(a), Ok(b), Ok(c)) => Ok(a is Some && b is Some && c is Some),
    }
}

/// Recovers every supported `EPROCESS` offset at once.
///
/// Each of the three offset searches (image base, process identifier,
/// `Peb`, in that order) runs exactly once, whatever the others answered.
/// The result is the first error met, otherwise `Ok(false)` when at least one
/// offset could not be recovered and `Ok(true)` when all three are known.
pub fn initialize_cached_offsets<R: Fn(&str, &str) -> Result<Option<u64>, NTSTATUS>, C: Fn(u64) -> Vec<u8>>(
    offsets: &mut EprocessOffsets,
    resolve: &R,
    read_code: &C,
) -> (r: Result<bool, SearchError>)
    requires
        search_allowed(old(offsets).image_base, IMAGE_BASE_ROUTINE, *resolve, *read_code),
        search_allowed(old(offsets).process_id, PROCESS_ID_ROUTINE, *resolve, *read_code),
        search_allowed(old(offsets).peb, PEB_ROUTINE, *resolve, *read_code),
    ensures
        exists|r1: Result<Option<u64>, SearchError>, r2: Result<Option<u64>, SearchError>, r3: Result<Option<u64>, SearchError>|
            {
                &&& #[trigger] cached_search(r1, old(offsets).image_base, final(offsets).image_base, IMAGE_BASE_ROUTINE, *resolve, *read_code)
                &&& #[trigger] cached_search(r2, old(offsets).process_id, final(offsets).process_id, PROCESS_ID_ROUTINE, *resolve, *read_code)
                &&& #[trigger] cached_search(r3, old(offsets).peb, final(offsets).peb, PEB_ROUTINE, *resolve, *read_code)
                &&& r == all_offsets_outcome(r1, r2, r3)
            },
{
    let r1 = search_process_image_base_offset(offsets, resolve, read_code);
    let r2 = search_process_id_offset(offsets, resolve, read_code);
    let r3 = search_peb_offset(offsets, resolve, read_code);
    match (r1, r2, r3) {
        (Err(e), _, _) => Err(e),
        (_, Err(e), _) => Err(e),
        (_, _, Err(e)) => Err(e),
        (Ok(a), Ok(b), Ok(c)) => Ok(a.is_some() && b.is_some() && c.is_some()),
    }
}

} // verus!

verus! {

/// What initializing every offset answers, in terms of the three cached
/// searches it ran (image base, process identifier, `Peb`): `Ok(true)`
/// exactly when all three recovered an offset, and then each cache holds the
/// offset its search returned; `Ok(false)` exactly when none failed and at
/// least one recovered no offset; otherwise the error of the first search
/// that failed.
pub proof fn lemma_all_offsets_known<R: Fn(&str, &str) -> Result<Option<u64>, NTSTATUS>, C: Fn(u64) -> Vec<u8>>(
    r1: Result<Option<u64>, SearchError>,
    r2: Result<Option<u64>, SearchError>,
    r3: Result<Option<u64>, SearchError>,
    before: EprocessOffsets,
    after: EprocessOffsets,
    resolve: R,
    read_code: C,
)
    requires
        cached_search(r1, before.image_base, after.image_base, IMAGE_BASE_ROUTINE, resolve, read_code),
        cached_search(r2, before.process_id, after.process_id, PROCESS_ID_ROUTINE, resolve, read_code),
        cached_search(r3, before.peb, after.peb, PEB_ROUTINE, resolve, read_code),
    ensures
        all_offsets_outcome(r1, r2, r3) == Ok::<bool, SearchError>(true) <==> (r1 is Ok && r1->Ok_0 is Some && r2 is Ok
            && r2->Ok_0 is Some && r3 is Ok && r3->Ok_0 is Some),
        all_offsets_outcome(r1, r2, r3) == Ok::<bool, SearchError>(true) ==> {
            &&& r1 == Ok::<Option<u64>, SearchError>(Some(after.image_base))
            &&& r2 == Ok::<Option<u64>, SearchError>(Some(after.process_id))
            &&& r3 == Ok::<Option<u64>, SearchError>(Some(after.peb))
        },
        all_offsets_outcome(r1, r2, r3) == Ok::<bool, SearchError>(false) <==> (r1 is Ok && r2 is Ok && r3 is Ok
            && (r1->Ok_0 is None || r2->Ok_0 is None || r3->Ok_0 is None)),
        r1 is Err ==> all_offsets_outcome(r1, r2, r3) == Err::<bool, SearchError>(r1->Err_0),
        r1 is Ok && r2 is Err ==> all_offsets_outcome(r1, r2, r3) == Err::<bool, SearchError>(r2->Err_0),
        r1 is Ok && r2 is Ok && r3 is Err ==> all_offsets_outcome(r1, r2, r3) == Err::<bool, SearchError>(r3->Err_0),
{
}

/// Once a search has cached a nonzero offset, the next search for that field
/// returns the same offset and leaves the cache as it is, whatever the kernel
/// would answer. That search queries no module, resolves no export and
/// decodes nothing: it may be handed any closures at all, even ones that
/// can never be called, since [`search_allowed`] demands nothing of them
/// once the cache is set.
pub proof fn lemma_cached_offset_is_stable<R: Fn(&str, &str) -> Result<Option<u64>, NTSTATUS>, C: Fn(u64) -> Vec<u8>>(
    first: Result<Option<u64>, SearchError>,
    second: Result<Option<u64>, SearchError>,
    before: u64,
    between: u64,
    after: u64,
    routine_name: &str,
    resolve: R,
    read_code: C,
    offset: u64,
)
    requires
        cached_search(first, before, between, routine_name, resolve, read_code),
        first == Ok::<Option<u64>, SearchError>(Some(offset)),
        offset != 0,
        cached_search(second, between, after, routine_name, resolve, read_code),
    ensures
        second == Ok::<Option<u64>, SearchError>(Some(offset)),
        after == between,
        between == offset,
        forall|any_resolve: R, any_read_code: C| #[trigger] search_allowed(between, routine_name, any_resolve, any_read_code),
{
}

} // verus!
