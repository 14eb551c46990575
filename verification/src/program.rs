use vstd::prelude::*;

use crate::bridge::UserHostRequester;
use crate::errors::MemoryBoundsError;
use crate::guard::access_allowed;
use crate::memory::{GuestMemory, PAGE_SIZE};

verus! {

/// EVM-style execution context of one call: who is being executed, who
/// called it, and how many bytes of return data the guest currently expects
/// from its most recent nested call.
pub struct EvmData {
    /// Address of the program being executed; immutable after creation.
    pub contract_address: Vec<u8>,
    /// Address of the account that called it; immutable after creation.
    pub caller_address: Vec<u8>,
    /// Expected length of the return data of the most recent nested call.
    pub return_data_len: u32,
}

impl EvmData {
    /// A fresh context with no return data expected yet.
    pub fn new(contract_address: Vec<u8>, caller_address: Vec<u8>) -> (r: EvmData)
        ensures
            r.contract_address@ == contract_address@,
            r.caller_address@ == caller_address@,
            r.return_data_len == 0,
    {
        EvmData { contract_address, caller_address, return_data_len: 0 }
    }
}

/// One active program: its immutable arguments, growing output, execution
/// context, opaque call configuration, module handle, linear memory, and
/// its own host-request bridge, which dies with the instance.
pub struct Program {
    /// Arguments passed via the VM; immutable after creation.
    pub args: Vec<u8>,
    /// Output generated by the program; only ever appended to.
    pub outs: Vec<u8>,
    /// Mechanism for calling back into the host.
    pub requester: UserHostRequester,
    /// EVM context info.
    pub evm_data: EvmData,
    /// Module handle of this instance, opaque to this layer; used to tell
    /// instances apart when querying the outside world.
    pub module: u32,
    /// Call configuration, opaque to this layer; immutable after creation.
    pub config: u64,
    /// The instance's linear memory.
    pub memory: GuestMemory,
}

impl Program {
    /// The instance's memory is well formed.
    pub open spec fn wf(&self) -> bool {
        self.memory.wf()
    }

    /// A new instance: the given arguments, context, module, configuration
    /// and memory, with empty output and an idle bridge.
    pub fn new(args: Vec<u8>, evm_data: EvmData, module: u32, config: u64, memory: GuestMemory) -> (r:
        Program)
        ensures
            r.args == args,
            r.outs@.len() == 0,
            r.requester@.is_idle(),
            r.requester@.wf(),
            r.evm_data == evm_data,
            r.module == module,
            r.config == config,
            r.memory == memory,
            memory.wf() ==> r.wf(),
    {
        Program {
            args,
            outs: Vec::new(),
            requester: UserHostRequester::default(),
            evm_data,
            module,
            config,
            memory,
        }
    }

    /// Reads the program's memory size in pages.
    pub fn memory_size(&self) -> (r: u32)
        ensures
            r == self.memory.spec_pages(),
    {
        self.memory.size_in_pages()
    }

    /// Ensures an access is within bounds of this instance's memory.
    pub fn check_memory_access(&self, ptr: u32, bytes: u32) -> (r: Result<(), MemoryBoundsError>)
        ensures
            r is Ok <==> access_allowed(ptr, bytes, self.memory.spec_pages(), PAGE_SIZE),
            r is Err ==> r == Err::<(), MemoryBoundsError>(MemoryBoundsError),
    {
        crate::guard::check(ptr, bytes, self.memory.size_in_pages(), PAGE_SIZE)
    }

    /// Reads `len` bytes of guest memory at `ptr`, bounds-checked.
    pub fn read_slice(&self, ptr: u32, len: u32) -> (r: Result<Vec<u8>, MemoryBoundsError>)
        requires
            self.wf(),
        ensures
            r is Ok <==> access_allowed(ptr, len, self.memory.spec_pages(), PAGE_SIZE),
            (r matches Ok(v) ==> v@ == self.memory@.subrange(ptr as int, ptr + len)),
            r is Err ==> r == Err::<Vec<u8>, MemoryBoundsError>(MemoryBoundsError),
    {
        self.memory.read_slice(ptr, len)
    }

    /// Reads a 20-byte value from guest memory at `ptr`, bounds-checked.
    pub fn read_bytes20(&self, ptr: u32) -> (r: Result<Vec<u8>, MemoryBoundsError>)
        requires
            self.wf(),
        ensures
            r is Ok <==> access_allowed(ptr, 20, self.memory.spec_pages(), PAGE_SIZE),
            (r matches Ok(v) ==> v@ == self.memory@.subrange(ptr as int, ptr + 20)),
            r is Err ==> r == Err::<Vec<u8>, MemoryBoundsError>(MemoryBoundsError),
    {
        self.memory.read_slice(ptr, 20)
    }

    /// Reads a 32-byte value from guest memory at `ptr`, bounds-checked.
    pub fn read_bytes32(&self, ptr: u32) -> (r: Result<Vec<u8>, MemoryBoundsError>)
        requires
            self.wf(),
        ensures
            r is Ok <==> access_allowed(ptr, 32, self.memory.spec_pages(), PAGE_SIZE),
            (r matches Ok(v) ==> v@ == self.memory@.subrange(ptr as int, ptr + 32)),
            r is Err ==> r == Err::<Vec<u8>, MemoryBoundsError>(MemoryBoundsError),
    {
        self.memory.read_slice(ptr, 32)
    }

    /// Writes the little-endian image of `x` into guest memory at `ptr`,
    /// bounds-checked. Nothing but the memory changes.
    pub fn write_u32(&mut self, ptr: u32, x: u32) -> (r: Result<(), MemoryBoundsError>)
        requires
            old(self).wf(),
        ensures
            final(self).wf(),
            *final(self) == (Program { memory: final(self).memory, ..*old(self) }),
            final(self).memory.spec_pages() == old(self).memory.spec_pages(),
            final(self).memory@.len() == old(self).memory@.len(),
            r is Ok <==> access_allowed(ptr, 4, old(self).memory.spec_pages(), PAGE_SIZE),
            r is Ok ==> forall|j: int|
                0 <= j < old(self).memory@.len() ==> final(self).memory@[j] == (if ptr <= j < ptr
                    + 4 {
                    GuestMemory::u32_le_bytes(x)[j - ptr]
                } else {
                    old(self).memory@[j]
                }),
            r is Err ==> final(self).memory@ == old(self).memory@ && r == Err::<
                (),
                MemoryBoundsError,
            >(MemoryBoundsError),
    {
        self.memory.write_u32(ptr, x)
    }

    /// Writes a 20-byte value into guest memory at `ptr`, bounds-checked.
    pub fn write_bytes20(&mut self, ptr: u32, src: &[u8]) -> (r: Result<(), MemoryBoundsError>)
        requires
            old(self).wf(),
            src@.len() == 20,
        ensures
            final(self).wf(),
            *final(self) == (Program { memory: final(self).memory, ..*old(self) }),
            final(self).memory.spec_pages() == old(self).memory.spec_pages(),
            final(self).memory@.len() == old(self).memory@.len(),
            r is Ok <==> access_allowed(ptr, 20, old(self).memory.spec_pages(), PAGE_SIZE),
            r is Ok ==> forall|j: int|
                0 <= j < old(self).memory@.len() ==> final(self).memory@[j] == (if ptr <= j < ptr
                    + 20 {
                    src@[j - ptr]
                } else {
                    old(self).memory@[j]
                }),
            r is Err ==> final(self).memory@ == old(self).memory@ && r == Err::<
                (),
                MemoryBoundsError,
            >(MemoryBoundsError),
    {
        self.memory.write_slice(ptr, src)
    }

    /// Writes a 32-byte value into guest memory at `ptr`, bounds-checked.
    pub fn write_bytes32(&mut self, ptr: u32, src: &[u8]) -> (r: Result<(), MemoryBoundsError>)
        requires
            old(self).wf(),
            src@.len() == 32,
        ensures
            final(self).wf(),
            *final(self) == (Program { memory: final(self).memory, ..*old(self) }),
            final(self).memory.spec_pages() == old(self).memory.spec_pages(),
            final(self).memory@.len() == old(self).memory@.len(),
            r is Ok <==> access_allowed(ptr, 32, old(self).memory.spec_pages(), PAGE_SIZE),
            r is Ok ==> forall|j: int|
                0 <= j < old(self).memory@.len() ==> final(self).memory@[j] == (if ptr <= j < ptr
                    + 32 {
                    src@[j - ptr]
                } else {
                    old(self).memory@[j]
                }),
            r is Err ==> final(self).memory@ == old(self).memory@ && r == Err::<
                (),
                MemoryBoundsError,
            >(MemoryBoundsError),
    {
        self.memory.write_slice(ptr, src)
    }

    /// Writes a byte slice into guest memory at `ptr`, bounds-checked.
    pub fn write_slice(&mut self, ptr: u32, src: &[u8]) -> (r: Result<(), MemoryBoundsError>)
        requires
            old(self).wf(),
            src@.len() <= u32::MAX,
        ensures
            final(self).wf(),
            *final(self) == (Program { memory: final(self).memory, ..*old(self) }),
            final(self).memory.spec_pages() == old(self).memory.spec_pages(),
            final(self).memory@.len() == old(self).memory@.len(),
            r is Ok <==> access_allowed(
                ptr,
                src@.len() as u32,
                old(self).memory.spec_pages(),
                PAGE_SIZE,
            ),
            r is Ok ==> forall|j: int|
                0 <= j < old(self).memory@.len() ==> final(self).memory@[j] == (if ptr <= j < ptr
                    + src@.len() {
                    src@[j - ptr]
                } else {
                    old(self).memory@[j]
                }),
            r is Err ==> final(self).memory@ == old(self).memory@ && r == Err::<
                (),
                MemoryBoundsError,
            >(MemoryBoundsError),
    {
        self.memory.write_slice(ptr, src)
    }

    /// Read access to the arguments.
    pub fn args(&self) -> (r: &[u8])
        ensures
            r@ == self.args@,
    {
        self.args.as_slice()
    }

    /// Mutable access to the output buffer, for appending.
    pub fn outs(&mut self) -> (r: &mut Vec<u8>)
        ensures
            *r == old(self).outs,
            *final(self) == (Program { outs: *final(r), ..*old(self) }),
    {
        &mut self.outs
    }

    /// Mutable access to the instance's host-request bridge.
    pub fn requester(&mut self) -> (r: &mut UserHostRequester)
        ensures
            *r == old(self).requester,
            *final(self) == (Program { requester: *final(r), ..*old(self) }),
    {
        &mut self.requester
    }

    /// Read access to the execution context.
    pub fn evm_data(&self) -> (r: &EvmData)
        ensures
            *r == self.evm_data,
    {
        &self.evm_data
    }

    /// Mutable access to the expected return-data length counter.
    pub fn evm_return_data_len(&mut self) -> (r: &mut u32)
        ensures
            *r == old(self).evm_data.return_data_len,
            *final(self) == (Program {
                evm_data: (EvmData { return_data_len: *final(r), ..old(self).evm_data }),
                ..*old(self)
            }),
    {
        &mut self.evm_data.return_data_len
    }
}

} // verus!
