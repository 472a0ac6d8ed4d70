//! Verified building blocks for Windows kernel-mode development: page-table
//! walking, kernel module lookup, `EPROCESS` offset discovery, inline-hook
//! encoding, allocation planning and memory descriptor list bookkeeping.
//!
//! Every access to the running kernel (reading or writing its memory,
//! allocating pool, calling exported routines) is performed by closures or
//! readers that the caller supplies; the decisions taken around those
//! accesses are verified here. Kernel pointers are carried as 64-bit
//! addresses.
#![allow(non_snake_case)]
#![allow(non_camel_case_types)]
#![allow(non_upper_case_globals)]

use vstd::prelude::*;

pub mod builds;
pub mod disasm;
pub mod khook;
pub mod memory;
pub mod process;
pub mod sys;
pub mod kalloc;

verus! {

/// Windows `NTSTATUS` code.
pub type NTSTATUS = i32;

/// `STATUS_SUCCESS`.
pub const STATUS_SUCCESS: NTSTATUS = 0;

/// `STATUS_UNSUCCESSFUL` (`0xC0000001`).
pub const STATUS_UNSUCCESSFUL: NTSTATUS = -1073741823;

/// `STATUS_INFO_LENGTH_MISMATCH` (`0xC0000004`).
pub const STATUS_INFO_LENGTH_MISMATCH: NTSTATUS = -1073741820;

/// `STATUS_INVALID_PARAMETER` (`0xC000000D`).
pub const STATUS_INVALID_PARAMETER: NTSTATUS = -1073741811;

/// `STATUS_BUFFER_TOO_SMALL` (`0xC0000023`).
pub const STATUS_BUFFER_TOO_SMALL: NTSTATUS = -1073741789;

/// `SystemModuleInformation` class of `ZwQuerySystemInformation`.
pub const SystemModuleInformation: u32 = 11;

/// `SystemProcessInformation` class of `ZwQuerySystemInformation`.
pub const SystemProcessInformation: u32 = 5;

/// `IoReadAccess` lock operation.
pub const IoReadAccess: i32 = 1;

/// `MmNonCached` caching type.
pub const MmNonCached: i32 = 0;

/// `NT_SUCCESS`: a status is a success or informational code when it is not negative.
pub fn nt_success(status: NTSTATUS) -> (r: bool)
    ensures
        r == (status >= 0),
{
    status >= 0
}

/// `LIST_ENTRY64`: a doubly linked list entry with 64-bit links.
#[derive(Clone, Copy, Debug)]
pub struct LIST_ENTRY64 {
    pub Flink: u64,
    pub Blink: u64,
}

/// `UNICODE_STRING`: a counted UTF-16 string; `Buffer` is its address.
#[derive(Clone, Copy, Debug)]
pub struct UNICODE_STRING {
    pub Length: u16,
    pub MaximumLength: u16,
    pub Buffer: u64,
}

/// Header of a kernel debugger data block.
pub struct DBGKD_DEBUG_DATA_HEADER64 {
    pub List: LIST_ENTRY64,
    pub OwnerTag: u32,
    pub Size: u32,
}

/// The kernel debugger data block (`KdDebuggerDataBlock`); addresses are
/// carried as 64-bit values.
pub struct KDDEBUGGER_DATA64 {
    pub Header: DBGKD_DEBUG_DATA_HEADER64,
    pub KernBase: u64,
    pub BreakpointWithStatus: u64,
    pub SavedContext: u64,
    pub ThCallbackStack: u16,
    pub NextCallback: u16,
    pub FramePointer: u16,
    pub _bitfield: u16,
    pub KiCallUserMode: u64,
    pub KeUserCallbackDispatcher: u64,
    pub PsLoadedModuleList: u64,
    pub PsActiveProcessHead: u64,
    pub PspCidTable: u64,
    pub ExpSystemResourcesList: u64,
    pub ExpPagedPoolDescriptor: u64,
    pub ExpNumberOfPagedPools: u64,
    pub KeTimeIncrement: u64,
    pub KeBugCheckCallbackListHead: u64,
    pub KiBugcheckData: u64,
    pub IopErrorLogListHead: u64,
    pub ObpRootDirectoryObject: u64,
    pub ObpTypeObjectType: u64,
    pub MmSystemCacheStart: u64,
    pub MmSystemCacheEnd: u64,
    pub MmSystemCacheWs: u64,
    pub MmPfnDatabase: u64,
    pub MmSystemPtesStart: u64,
    pub MmSystemPtesEnd: u64,
    pub MmSubsectionBase: u64,
    pub MmNumberOfPagingFiles: u64,
    pub MmLowestPhysicalPage: u64,
    pub MmHighestPhysicalPage: u64,
    pub MmNumberOfPhysicalPages: u64,
    pub MmMaximumNonPagedPoolInBytes: u64,
    pub MmNonPagedSystemStart: u64,
    pub MmNonPagedPoolStart: u64,
    pub MmNonPagedPoolEnd: u64,
    pub MmPagedPoolStart: u64,
    pub MmPagedPoolEnd: u64,
    pub MmPagedPoolInformation: u64,
    pub MmPageSize: u64,
    pub MmSizeOfPagedPoolInBytes: u64,
    pub MmTotalCommitLimit: u64,
    pub MmTotalCommittedPages: u64,
    pub MmSharedCommit: u64,
    pub MmDriverCommit: u64,
    pub MmProcessCommit: u64,
    pub MmPagedPoolCommit: u64,
    pub MmExtendedCommit: u64,
    pub MmZeroedPageListHead: u64,
    pub MmFreePageListHead: u64,
    pub MmStandbyPageListHead: u64,
    pub MmModifiedPageListHead: u64,
    pub MmModifiedNoWritePageListHead: u64,
    pub MmAvailablePages: u64,
    pub MmResidentAvailablePages: u64,
    pub PoolTrackTable: u64,
    pub NonPagedPoolDescriptor: u64,
    pub MmHighestUserAddress: u64,
    pub MmSystemRangeStart: u64,
    pub MmUserProbeAddress: u64,
    pub KdPrintCircularBuffer: u64,
    pub KdPrintCircularBufferEnd: u64,
    pub KdPrintWritePointer: u64,
    pub KdPrintRolloverCount: u64,
    pub MmLoadedUserImageList: u64,
    pub NtBuildLab: u64,
    pub KiNormalSystemCall: u64,
    pub KiProcessorBlock: u64,
    pub MmUnloadedDrivers: u64,
    pub MmLastUnloadedDriver: u64,
    pub MmTriageActionTaken: u64,
    pub MmSpecialPoolTag: u64,
    pub KernelVerifier: u64,
    pub MmVerifierData: u64,
    pub MmAllocatedNonPagedPool: u64,
    pub MmPeakCommitment: u64,
    pub MmTotalCommitLimitMaximum: u64,
    pub CmNtCSDVersion: u64,
    pub MmPhysicalMemoryBlock: u64,
    pub MmSessionBase: u64,
    pub MmSessionSize: u64,
    pub MmSystemParentTablePage: u64,
    pub MmVirtualTranslationBase: u64,
    pub OffsetKThreadNextProcessor: u16,
    pub OffsetKThreadTeb: u16,
    pub OffsetKThreadKernelStack: u16,
    pub OffsetKThreadInitialStack: u16,
    pub OffsetKThreadApcProcess: u16,
    pub OffsetKThreadState: u16,
    pub OffsetKThreadBStore: u16,
    pub OffsetKThreadBStoreLimit: u16,
    pub SizeEProcess: u16,
    pub OffsetEprocessPeb: u16,
    pub OffsetEprocessParentCID: u16,
    pub OffsetEprocessDirectoryTableBase: u16,
    pub SizePrcb: u16,
    pub OffsetPrcbDpcRoutine: u16,
    pub OffsetPrcbCurrentThread: u16,
    pub OffsetPrcbMhz: u16,
    pub OffsetPrcbCpuType: u16,
    pub OffsetPrcbVendorString: u16,
    pub OffsetPrcbProcStateContext: u16,
    pub OffsetPrcbNumber: u16,
    pub SizeEThread: u16,
    pub L1tfHighPhysicalBitIndex: u8,
    pub L1tfSwizzleBitIndex: u8,
    pub Padding0: u32,
    pub KdPrintCircularBufferPtr: u64,
    pub KdPrintBufferSize: u64,
    pub KeLoaderBlock: u64,
    pub SizePcr: u16,
    pub OffsetPcrSelfPcr: u16,
    pub OffsetPcrCurrentPrcb: u16,
    pub OffsetPcrContainedPrcb: u16,
    pub OffsetPcrInitialBStore: u16,
    pub OffsetPcrBStoreLimit: u16,
    pub OffsetPcrInitialStack: u16,
    pub OffsetPcrStackLimit: u16,
    pub OffsetPrcbPcrPage: u16,
    pub OffsetPrcbProcStateSpecialReg: u16,
    pub GdtR0Code: u16,
    pub GdtR0Data: u16,
    pub GdtR0Pcr: u16,
    pub GdtR3Code: u16,
    pub GdtR3Data: u16,
    pub GdtR3Teb: u16,
    pub GdtLdt: u16,
    pub GdtTss: u16,
    pub Gdt64R3CmCode: u16,
    pub Gdt64R3CmTeb: u16,
    pub IopNumTriageDumpDataBlocks: u64,
    pub IopTriageDumpDataBlocks: u64,
    pub VfCrashDataBlock: u64,
    pub MmBadPagesDetected: u64,
    pub MmZeroedPageSingleBitErrorsDetected: u64,
    pub EtwpDebuggerData: u64,
    pub OffsetPrcbContext: u16,
    pub OffsetPrcbMaxBreakpoints: u16,
    pub OffsetPrcbMaxWatchpoints: u16,
    pub OffsetKThreadStackLimit: u32,
    pub OffsetKThreadStackBase: u32,
    pub OffsetKThreadQueueListEntry: u32,
    pub OffsetEThreadIrpList: u32,
    pub OffsetPrcbIdleThread: u16,
    pub OffsetPrcbNormalDpcState: u16,
    pub OffsetPrcbDpcStack: u16,
    pub OffsetPrcbIsrStack: u16,
    pub SizeKDPC_STACK_FRAME: u16,
    pub OffsetKPriQueueThreadListHead: u16,
    pub OffsetKThreadWaitReason: u16,
    pub Padding1: u16,
    pub PteBase: u64,
    pub RetpolineStubFunctionTable: u64,
    pub RetpolineStubFunctionTableSize: u32,
    pub RetpolineStubOffset: u32,
    pub RetpolineStubSize: u32,
    pub OffsetEProcessMmHotPatchContext: u16,
    pub OffsetKThreadShadowStackLimit: u32,
    pub OffsetKThreadShadowStackBase: u32,
    pub ShadowStackEnabled: u64,
    pub PointerAuthMask: u64,
    pub OffsetPrcbExceptionStack: u16,
}

/// MS-DOS header at the start of a PE image.
pub struct IMAGE_DOS_HEADER {
    pub e_magic: u16,
    pub e_cblp: u16,
    pub e_cp: u16,
    pub e_crlc: u16,
    pub e_cparhdr: u16,
    pub e_minalloc: u16,
    pub e_maxalloc: u16,
    pub e_ss: u16,
    pub e_sp: u16,
    pub e_csum: u16,
    pub e_ip: u16,
    pub e_cs: u16,
    pub e_lfarlc: u16,
    pub e_ovno: u16,
    pub e_res: [u16; 4],
    pub e_oemid: u16,
    pub e_oeminfo: u16,
    pub e_res2: [u16; 10],
    pub e_lfanew: i32,
}

/// NT headers of a 64-bit PE image.
pub struct IMAGE_NT_HEADERS64 {
    pub Signature: u32,
    pub FileHeader: IMAGE_FILE_HEADER,
    pub OptionalHeader: IMAGE_OPTIONAL_HEADER64,
}

/// COFF file header of a PE image.
pub struct IMAGE_FILE_HEADER {
    pub Machine: u16,
    pub NumberOfSections: u16,
    pub TimeDateStamp: u32,
    pub PointerToSymbolTable: u32,
    pub NumberOfSymbols: u32,
    pub SizeOfOptionalHeader: u16,
    pub Characteristics: u16,
}

/// Location and size of a data directory of a PE image.
pub struct IMAGE_DATA_DIRECTORY {
    pub VirtualAddress: u32,
    pub Size: u32,
}

/// Optional header of a 64-bit PE image.
pub struct IMAGE_OPTIONAL_HEADER64 {
    pub Magic: u16,
    pub MajorLinkerVersion: u8,
    pub MinorLinkerVersion: u8,
    pub SizeOfCode: u32,
    pub SizeOfInitializedData: u32,
    pub SizeOfUninitializedData: u32,
    pub AddressOfEntryPoint: u32,
    pub BaseOfCode: u32,
    pub ImageBase: u64,
    pub SectionAlignment: u32,
    pub FileAlignment: u32,
    pub MajorOperatingSystemVersion: u16,
    pub MinorOperatingSystemVersion: u16,
    pub MajorImageVersion: u16,
    pub MinorImageVersion: u16,
    pub MajorSubsystemVersion: u16,
    pub MinorSubsystemVersion: u16,
    pub Win32VersionValue: u32,
    pub SizeOfImage: u32,
    pub SizeOfHeaders: u32,
    pub CheckSum: u32,
    pub Subsystem: u16,
    pub DllCharacteristics: u16,
    pub SizeOfStackReserve: u64,
    pub SizeOfStackCommit: u64,
    pub SizeOfHeapReserve: u64,
    pub SizeOfHeapCommit: u64,
    pub LoaderFlags: u32,
    pub NumberOfRvaAndSizes: u32,
    pub DataDirectory: [IMAGE_DATA_DIRECTORY; 16],
}

/// One loaded kernel module, as `ZwQuerySystemInformation` lists it for
/// `SystemModuleInformation`.
#[derive(Clone, Copy, Debug)]
pub struct RTL_PROCESS_MODULE_INFORMATION {
    pub Section: u64,
    pub MappedBase: u64,
    pub ImageBase: u64,
    pub ImageSize: u32,
    pub Flags: u32,
    pub LoadOrderIndex: u16,
    pub InitOrderIndex: u16,
    pub LoadCount: u16,
    pub OffsetToFileName: u16,
    pub FullPathName: [u8; 256],
}

/// The module list returned for `SystemModuleInformation`: the count, then
/// the records.
#[derive(Clone, Copy, Debug)]
pub struct RTL_PROCESS_MODULES {
    pub NumberOfModules: u32,
    pub Modules: [RTL_PROCESS_MODULE_INFORMATION; 1],
}

/// Leading part of a process record returned for `SystemProcessInformation`.
pub struct SYSTEM_PROCESS_INFORMATION {
    pub NextEntryOffset: u32,
    pub NumberOfThreads: u32,
    pub Reserved1: [u64; 3],
    pub CreateTime: i64,
    pub UserTime: i64,
    pub KernelTime: i64,
    pub ImageName: UNICODE_STRING,
    pub BasePriority: i32,
    pub UniqueProcessId: u64,
    pub InheritedFromUniqueProcessId: u64,
}

/// Button state of a mouse input packet: all of it, or flags and data.
#[derive(Copy)]
pub union MouseButtons {
    pub Buttons: u32,
    pub ButtonFields: ButtonFields,
}

impl Clone for MouseButtons {
    fn clone(&self) -> Self {
        *self
    }
}

/// Button flags and wheel data of a mouse input packet.
#[derive(Clone, Copy, Debug)]
pub struct ButtonFields {
    pub ButtonFlags: u16,
    pub ButtonData: u16,
}

/// One mouse input packet.
#[derive(Clone, Copy)]
pub struct MOUSE_INPUT_DATA {
    pub UnitId: u16,
    pub Flags: u16,
    pub u: MouseButtons,
    pub RawButtons: u32,
    pub LastX: i32,
    pub LastY: i32,
    pub ExtraInformation: u32,
}

/// A mouse class device and its service callback; the device and the
/// callback are carried as addresses (a null callback is `0`).
#[derive(Clone, Copy, Debug)]
pub struct MOUSE_OBJECT {
    pub mouse_device: u64,
    pub service_call_back: u64,
    pub use_mouse: i32,
}

/// Whether `r` is the part of `s` before its first NUL byte (all of `s` when
/// it holds none).
pub open spec fn is_until_nul(r: Seq<u8>, s: Seq<u8>) -> bool {
    &&& r.len() <= s.len()
    &&& r == s.subrange(0, r.len() as int)
    &&& forall|i: int| 0 <= i < r.len() ==> r[i] != 0
    &&& r.len() == s.len() || s[r.len() as int] == 0
}

/// The part of a module's full path where its file name is expected: from
/// `OffsetToFileName` on, or the whole path when the offset lies past its end.
pub open spec fn file_name_area(info: RTL_PROCESS_MODULE_INFORMATION) -> Seq<u8> {
    let off = info.OffsetToFileName as int;
    if off >= 256 {
        info.FullPathName@
    } else {
        info.FullPathName@.subrange(off, 256)
    }
}

/// The bytes of `s` before its first NUL byte (all of `s` when it has none).
pub fn nul_prefix(s: &[u8]) -> (r: &[u8])
    ensures
        is_until_nul(r@, s@),
{
    let pos = nul_position(s);
    &s[0..pos]
}

/// Position of the first NUL byte in `s`, or its length when it holds none.
fn nul_position(s: &[u8]) -> (r: usize)
    ensures
        r <= s@.len(),
        is_until_nul(s@.subrange(0, r as int), s@),
{
    let mut i: usize = 0;
    while i < s.len()
        invariant
            i <= s@.len(),
            forall|k: int| 0 <= k < i ==> s@[k] != 0,
        decreases s@.len() - i,
    {
        if s[i] == 0 {
            assert(s@.subrange(0, i as int).len() == i);
            return i;
        }
        i = i + 1;
    }
    i
}

/// Returns the file name of a loaded module: the bytes of its full path from
/// `OffsetToFileName` (or from the start, when the offset lies past the end
/// of the path buffer) up to the first NUL byte.
pub fn filename_from_info(info: &RTL_PROCESS_MODULE_INFORMATION) -> (r: &[u8])
    ensures
        is_until_nul(r@, file_name_area(*info)),
{
    let off = info.OffsetToFileName as usize;
    let full = info.FullPathName.as_slice();
    let area = if off >= full.len() {
        full
    } else {
        &full[off..full.len()]
    };
    let pos = nul_position(area);
    &area[0..pos]
}

/// Returns the image base and the file name of a loaded module.
pub fn module_base_and_name(info: &RTL_PROCESS_MODULE_INFORMATION) -> (r: (u64, &[u8]))
    ensures
        r.0 == info.ImageBase,
        is_until_nul(r.1@, file_name_area(*info)),
{
    (info.ImageBase, filename_from_info(info))
}

/// `OBJECT_ATTRIBUTES`: how an object is named and opened; the handle and
/// the pointers are carried as addresses.
#[derive(Clone, Copy, Debug)]
pub struct OBJECT_ATTRIBUTES {
    pub Length: u32,
    pub RootDirectory: u64,
    pub ObjectName: u64,
    pub Attributes: u32,
    pub SecurityDescriptor: u64,
    pub SecurityQualityOfService: u64,
}

/// Size in bytes of `OBJECT_ATTRIBUTES` on x64.
pub const OBJECT_ATTRIBUTES_SIZE: u32 = 48;

/// `InitializeObjectAttributes`: `obj` names the object `name` with
/// `attributes`, with no root directory and no security information.
pub fn init_object_attributes(obj: &mut OBJECT_ATTRIBUTES, name: u64, attributes: u32)
    ensures
        final(obj).Length == OBJECT_ATTRIBUTES_SIZE,
        final(obj).RootDirectory == 0,
        final(obj).ObjectName == name,
        final(obj).Attributes == attributes,
        final(obj).SecurityDescriptor == 0,
        final(obj).SecurityQualityOfService == 0,
{
    obj.Length = OBJECT_ATTRIBUTES_SIZE;
    obj.RootDirectory = 0;
    obj.ObjectName = name;
    obj.Attributes = attributes;
    obj.SecurityDescriptor = 0;
    obj.SecurityQualityOfService = 0;
}

} // verus!
