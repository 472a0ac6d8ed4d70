//! Process utilities: locating the initial system process and walking the
//! `ActiveProcessLinks` list of `EPROCESS` objects.
//!
//! `EPROCESS` is undocumented; the offsets of its fields are recovered at
//! run time by the [`eprocess`] module.
use vstd::prelude::*;
use crate::NTSTATUS;

pub mod eprocess;

verus! {

/// Errors that may occur while locating kernel process information.
#[derive(Debug, Copy, Clone, PartialEq, Eq, Hash, Structural)]
pub enum SearchError {
    UnknownModule,
    UnknownFunction,
    UnknownOffset,
}

/// NT path of the kernel image.
pub const NTOSKRNL_PATH: &'static str = "\\SystemRoot\\System32\\ntoskrnl.exe";

/// Exported variable holding the initial system process.
pub const PS_INITIAL_SYSTEM_PROCESS: &'static str = "PsInitialSystemProcess";

/// What [`get_initial_system_process`] returns when the cache is empty, once
/// `PsInitialSystemProcess` resolved to `exported` and, when found, the
/// pointer stored there read as `system_process`.
pub open spec fn initial_process_outcome(r: Result<u64, SearchError>, exported: Result<Option<u64>, NTSTATUS>, system_process: u64) -> bool {
    match exported {
        Err(_) => r == Err::<u64, SearchError>(SearchError::UnknownModule),
        Ok(None) => r == Err::<u64, SearchError>(SearchError::UnknownFunction),
        Ok(Some(_)) => r == Ok::<u64, SearchError>(system_process),
    }
}

/// Returns the kernel's initial system process (`System`).
///
/// A nonzero `cache` is returned at once. Otherwise `resolve` looks up the
/// exported `PsInitialSystemProcess` in the kernel image (as
/// `resolve_system_routine` does), `read_pointer` reads the process pointer
/// stored at the exported address, and the result is cached.
pub fn get_initial_system_process<R: FnOnce(&str, &str) -> Result<Option<u64>, NTSTATUS>, P: FnOnce(u64) -> u64>(
    cache: &mut u64,
    resolve: R,
    read_pointer: P,
) -> (r: Result<u64, SearchError>)
    requires
        *old(cache) == 0 ==> call_requires(resolve, (NTOSKRNL_PATH, PS_INITIAL_SYSTEM_PROCESS)),
        forall|a: u64|
            #[trigger] call_ensures(resolve, (NTOSKRNL_PATH, PS_INITIAL_SYSTEM_PROCESS), Ok::<Option<u64>, NTSTATUS>(Some(a)))
                ==> call_requires(read_pointer, (a,)),
    ensures
        *old(cache) != 0 ==> r == Ok::<u64, SearchError>(*old(cache)) && *final(cache) == *old(cache),
        *old(cache) == 0 ==> exists|exported: Result<Option<u64>, NTSTATUS>|
            {
                &&& #[trigger] call_ensures(resolve, (NTOSKRNL_PATH, PS_INITIAL_SYSTEM_PROCESS), exported)
                &&& match exported {
                    Ok(Some(addr)) => exists|p: u64|
                        #[trigger] call_ensures(read_pointer, (addr,), p) && r == Ok::<u64, SearchError>(p)
                            && *final(cache) == p,
                    _ => initial_process_outcome(r, exported, 0) && *final(cache) == *old(cache),
                }
            },
{
    let cached = *cache;
    if cached != 0 {
        return Ok(cached);
    }
    let exported = resolve(NTOSKRNL_PATH, PS_INITIAL_SYSTEM_PROCESS);
    let addr = match exported {
        Err(_) => return Err(SearchError::UnknownModule),
        Ok(None) => return Err(SearchError::UnknownFunction),
        Ok(Some(a)) => a,
    };
    let system_process = read_pointer(addr);
    *cache = system_process;
    Ok(system_process)
}

/// Where the search for a process starts, given what was found of the
/// initial system process and of the offset of the process identifier in
/// `EPROCESS`: the process and the offset, or the first error (an offset that
/// could not be found is [`SearchError::UnknownOffset`]).
pub open spec fn search_start(system_process: Result<u64, SearchError>, pid_offset: Result<Option<u64>, SearchError>) -> Result<(u64, u64), SearchError> {
    match system_process {
        Err(e) => Err(e),
        Ok(p) => match pid_offset {
            Err(e) => Err(e),
            Ok(None) => Err(SearchError::UnknownOffset),
            Ok(Some(o)) => Ok((p, o)),
        },
    }
}

/// Starts the search for a process by identifier: the initial system process
/// and the offset of the identifier, or the first error.
pub fn process_search_start(system_process: Result<u64, SearchError>, pid_offset: Result<Option<u64>, SearchError>) -> (r: Result<(u64, u64), SearchError>)
    ensures
        r == search_start(system_process, pid_offset),
{
    let p = match system_process {
        Err(e) => return Err(e),
        Ok(p) => p,
    };
    match pid_offset {
        Err(e) => Err(e),
        Ok(None) => Err(SearchError::UnknownOffset),
        Ok(Some(o)) => Ok((p, o)),
    }
}

/// One step of the walk of the `ActiveProcessLinks` list.
#[derive(Debug, Copy, Clone, PartialEq, Eq, Structural)]
pub enum ProcessWalkStep {
    /// The process at this address has the identifier looked for.
    Found(u64),
    /// The list ended (null link, or back at the system process).
    NotFound,
    /// The walk goes on with the process at this address.
    Next(u64),
}

/// The step taken at the process `process` of the walk that looks for `pid`
/// from `system_process`: `current_pid` is the identifier stored in it and
/// `flink` its forward link.
pub open spec fn walk_step(process: u64, system_process: u64, pid: u32, current_pid: u64, flink: u64, link_offset: u64) -> ProcessWalkStep {
    if current_pid == pid as u64 {
        ProcessWalkStep::Found(process)
    } else if flink == 0 {
        ProcessWalkStep::NotFound
    } else {
        let next = vstd::wrapping::u64_specs::wrapping_sub(flink, link_offset);
        if next == system_process {
            ProcessWalkStep::NotFound
        } else {
            ProcessWalkStep::Next(next)
        }
    }
}

/// One step of the search for the process with identifier `pid`, walking the
/// `ActiveProcessLinks` list from `system_process`.
///
/// `read_u64` reads the 64-bit value at a kernel address. The identifier
/// stored at `process + pid_offset` is compared first; when it differs, the
/// forward link at `process + link_offset` is followed to the next process.
/// The walk ends on a null link or when it comes back to the system process.
pub fn process_walk_step<F: Fn(u64) -> u64>(
    process: u64,
    system_process: u64,
    pid: u32,
    pid_offset: u64,
    link_offset: u64,
    read_u64: &F,
) -> (r: ProcessWalkStep)
    requires
        call_requires(*read_u64, (vstd::wrapping::u64_specs::wrapping_add(process, pid_offset),)),
        forall|current_pid: u64|
            #[trigger] call_ensures(*read_u64, (vstd::wrapping::u64_specs::wrapping_add(process, pid_offset),), current_pid)
                && current_pid != pid as u64
                ==> call_requires(*read_u64, (vstd::wrapping::u64_specs::wrapping_add(process, link_offset),)),
    ensures
        exists|current_pid: u64|
            {
                &&& #[trigger] call_ensures(*read_u64, (vstd::wrapping::u64_specs::wrapping_add(process, pid_offset),), current_pid)
                &&& if current_pid == pid as u64 {
                    r == ProcessWalkStep::Found(process)
                } else {
                    exists|flink: u64|
                        #[trigger] call_ensures(*read_u64, (vstd::wrapping::u64_specs::wrapping_add(process, link_offset),), flink)
                            && r == walk_step(process, system_process, pid, current_pid, flink, link_offset)
                }
            },
{
    let current_pid = read_u64(process.wrapping_add(pid_offset));
    if current_pid == pid as u64 {
        return ProcessWalkStep::Found(process);
    }
    let flink = read_u64(process.wrapping_add(link_offset));
    if flink == 0 {
        return ProcessWalkStep::NotFound;
    }
    let next = flink.wrapping_sub(link_offset);
    if next == system_process {
        return ProcessWalkStep::NotFound;
    }
    ProcessWalkStep::Next(next)
}

/// One step of the walk moves to the process that holds the forward link:
/// a `Next(p)` step was taken at a process with another identifier, from a
/// non-null link, and `p` is the process whose `ActiveProcessLinks` entry,
/// at `link_offset` within it, is the one the link points to; it is never
/// the system process. A `Found(p)` step stays at the process read, whose
/// identifier is `pid`; a `NotFound` step ends on another identifier and a
/// null link or a link back to the system process.
pub proof fn lemma_walk_step_follows_link(process: u64, system_process: u64, pid: u32, current_pid: u64, flink: u64, link_offset: u64)
    ensures
        walk_step(process, system_process, pid, current_pid, flink, link_offset) matches ProcessWalkStep::Next(p) ==> {
            &&& current_pid != pid as u64
            &&& flink != 0
            &&& vstd::wrapping::u64_specs::wrapping_add(p, link_offset) == flink
            &&& p != system_process
        },
        walk_step(process, system_process, pid, current_pid, flink, link_offset) matches ProcessWalkStep::Found(p) ==> {
            &&& p == process
            &&& current_pid == pid as u64
        },
        walk_step(process, system_process, pid, current_pid, flink, link_offset) is NotFound ==> {
            &&& current_pid != pid as u64
            &&& flink == 0 || vstd::wrapping::u64_specs::wrapping_add(system_process, link_offset) == flink
        },
        current_pid == pid as u64 ==> walk_step(process, system_process, pid, current_pid, flink, link_offset) == ProcessWalkStep::Found(process),
{
}

/// A walk for `pid` that visited the processes `procs` in order (reading
/// the identifier `pids[i]` and the forward link `flinks[i]` at each) and
/// ended with `Found(found)` stopped at the first process with that
/// identifier: the one it visited last. Every process before it had another
/// identifier, and the walk never came back to the system process on the way.
pub proof fn lemma_walk_finds_first_match(
    procs: Seq<u64>,
    pids: Seq<u64>,
    flinks: Seq<u64>,
    system_process: u64,
    pid: u32,
    link_offset: u64,
    found: u64,
)
    requires
        procs.len() > 0,
        pids.len() == procs.len(),
        flinks.len() == procs.len(),
        forall|i: int|
            0 <= i < procs.len() - 1 ==> #[trigger] walk_step(procs[i], system_process, pid, pids[i], flinks[i], link_offset)
                == ProcessWalkStep::Next(procs[i + 1]),
        walk_step(procs.last(), system_process, pid, pids.last(), flinks.last(), link_offset) == ProcessWalkStep::Found(found),
    ensures
        found == procs.last(),
        pids.last() == pid as u64,
        forall|i: int| 0 <= i < procs.len() - 1 ==> pids[i] != pid as u64,
        forall|i: int| 0 < i < procs.len() ==> procs[i] != system_process,
{
    assert forall|i: int| 0 < i < procs.len() implies procs[i] != system_process by {
        assert(walk_step(procs[i - 1], system_process, pid, pids[i - 1], flinks[i - 1], link_offset)
            == ProcessWalkStep::Next(procs[i]));
    }
    assert forall|i: int| 0 <= i < procs.len() - 1 implies pids[i] != pid as u64 by {
        assert(walk_step(procs[i], system_process, pid, pids[i], flinks[i], link_offset)
            == ProcessWalkStep::Next(procs[i + 1]));
    }
}

/// A walk for `pid` that visited the processes `procs` in order (reading
/// the identifier `pids[i]` and the forward link `flinks[i]` at each) and
/// ended with `NotFound` met no process with that identifier, and ended on a
/// null link or on a link back to the system process.
pub proof fn lemma_walk_not_found(
    procs: Seq<u64>,
    pids: Seq<u64>,
    flinks: Seq<u64>,
    system_process: u64,
    pid: u32,
    link_offset: u64,
)
    requires
        procs.len() > 0,
        pids.len() == procs.len(),
        flinks.len() == procs.len(),
        forall|i: int|
            0 <= i < procs.len() - 1 ==> #[trigger] walk_step(procs[i], system_process, pid, pids[i], flinks[i], link_offset)
                == ProcessWalkStep::Next(procs[i + 1]),
        walk_step(procs.last(), system_process, pid, pids.last(), flinks.last(), link_offset) == ProcessWalkStep::NotFound,
    ensures
        forall|i: int| 0 <= i < procs.len() ==> pids[i] != pid as u64,
        flinks.last() == 0 || vstd::wrapping::u64_specs::wrapping_sub(flinks.last(), link_offset) == system_process,
        forall|i: int| 0 < i < procs.len() ==> procs[i] != system_process,
{
    assert forall|i: int| 0 < i < procs.len() implies procs[i] != system_process by {
        assert(walk_step(procs[i - 1], system_process, pid, pids[i - 1], flinks[i - 1], link_offset)
            == ProcessWalkStep::Next(procs[i]));
    }
    assert forall|i: int| 0 <= i < procs.len() implies pids[i] != pid as u64 by {
        if i < procs.len() - 1 {
            assert(walk_step(procs[i], system_process, pid, pids[i], flinks[i], link_offset)
                == ProcessWalkStep::Next(procs[i + 1]));
        }
    }
}

} // verus!
