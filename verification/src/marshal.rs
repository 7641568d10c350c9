//! The marshaller: everything that crosses the boundary goes through it.
//!
//! The marshaller owns the guest's store, its linear memory and its seven
//! functions, all resolved when the module is loaded. It keeps two records.
//! The ledger holds the guest buffers that the host owns at the moment: a
//! buffer enters it when the host becomes its owner and leaves it with the one
//! call that gives it back to the guest's allocator. The log holds every step
//! the host has taken at the boundary, in order, with the values it handed
//! over.

use vstd::prelude::*;
use vstd::multiset::Multiset;
use wasmtime::{Instance, Memory, Store, Trap, TypedFunc};
use crate::clock::{deadline_ticks, deadline_ticks_spec, EpochClock};
use crate::error::{Export, RunnerError};
use crate::packed::{expand_return_pointer, packed_length, packed_ptr};
use crate::wasm::{
    call_pair_u32,
    call_pair_unit,
    call_u32_u32,
    call_u32_u64,
    call_u32_unit,
    error_trap,
    instance_get_memory,
    instance_new,
    instance_owner,
    linear_memory,
    memory_owner,
    memory_read,
    memory_size,
    memory_write,
    module_new,
    owner_pair_u32,
    owner_pair_unit,
    owner_u32_u32,
    owner_u32_u64,
    owner_u32_unit,
    store_id,
    store_new,
    store_set_epoch_deadline,
    typed_pair_u32,
    typed_pair_unit,
    typed_u32_u32,
    typed_u32_u64,
    typed_u32_unit,
};

verus! {

/// Whether `length` bytes from address `ptr` on lie inside a memory of `size`
/// bytes.
pub open spec fn in_bounds(size: nat, ptr: u32, length: u32) -> bool {
    ptr + length <= size
}

/// Whether a memory holds exactly `bytes` from address `ptr` on.
pub open spec fn holds_at(memory: Seq<u8>, ptr: u32, bytes: Seq<u8>) -> bool {
    &&& ptr + bytes.len() <= memory.len()
    &&& memory.subrange(ptr as int, ptr + bytes.len()) == bytes
}

/// What reading out a packed word yields from a memory: the bytes of the
/// region the word names, or nothing if that region leaves the memory.
pub open spec fn read_out_spec(memory: Seq<u8>, packed: u64) -> Option<Seq<u8>> {
    if in_bounds(memory.len(), packed_ptr(packed), packed_length(packed)) {
        Some(
            memory.subrange(
                packed_ptr(packed) as int,
                packed_ptr(packed) + packed_length(packed),
            ),
        )
    } else {
        None
    }
}

/// The failure that a trap, or the lack of one, stands for.
pub open spec fn fault_of_trap_spec(trap: Option<Trap>) -> RunnerError {
    match trap {
        Some(Trap::Interrupt) => RunnerError::Timeout,
        _ => RunnerError::GuestTrap,
    }
}

/// Tells a deadline trap from every other way a guest call can fail: the
/// engine reports an elapsed deadline as an interrupt.
pub fn fault_of_trap(trap: Option<Trap>) -> (fault: RunnerError)
    ensures
        fault == fault_of_trap_spec(trap),
        fault.is_trap(),
        fault == RunnerError::Timeout <==> trap == Some(Trap::Interrupt),
{
    match trap {
        Some(Trap::Interrupt) => RunnerError::Timeout,
        _ => RunnerError::GuestTrap,
    }
}

/// The failure that the error of a guest call stands for.
fn fault(error: &wasmtime::Error) -> (fault: RunnerError)
    ensures
        fault.is_trap(),
{
    fault_of_trap(error_trap(error))
}

/// A region of guest memory that the host owns and has to give back. It cannot
/// be copied, and only the marshaller makes one.
pub struct WasmVec {
    ptr: u32,
    length: u32,
}

impl WasmVec {
    /// The region as `(ptr, length)`.
    pub closed spec fn view(&self) -> (u32, u32) {
        (self.ptr, self.length)
    }

    /// The address of the region in guest memory.
    pub fn ptr(&self) -> (ptr: u32)
        ensures
            ptr == self@.0,
    {
        self.ptr
    }

    /// The length of the region in bytes.
    pub fn len(&self) -> (length: u32)
        ensures
            length == self@.1,
    {
        self.length
    }
}

/// The token a guest gave to the core it built. The host makes nothing of it
/// but to hand it back. It cannot be copied, only the constructor makes one,
/// and the destructor uses it up, so that no call can name a core that has
/// been destroyed.
pub struct CoreHandle {
    raw: u32,
}

impl CoreHandle {
    /// The token as the guest returned it.
    pub closed spec fn view(&self) -> u32 {
        self.raw
    }
}

/// One step of the host at the boundary, with the values it handed over.
pub enum Step {
    /// The deadline was set to this many ticks from now.
    Arm(u64),
    /// The allocator was asked for a buffer of this length.
    Alloc(u32),
    /// These bytes were written into guest memory from this address on.
    Write(u32, Seq<u8>),
    /// These bytes were copied out of guest memory from this address on.
    Read(u32, Seq<u8>),
    /// The deallocator was given this address and length.
    Free(u32, u32),
    /// The constructor was given the ROM at this address, of this length.
    CreateCore(u32, u32),
    /// The metadata was asked of the core with this handle.
    GetMetadata(u32),
    /// The core with this handle was given this controller mask.
    ControllerInput(u32, u32),
    /// The core with this handle was run until its next frame.
    ClockUntilFrame(u32),
    /// The destructor was given this handle.
    FreeEmulator(u32),
}

/// How often the steps of a log did what matters for the lifetime of buffers
/// and of the core.
pub struct Tally {
    /// Calls that hand a guest buffer to the host when they succeed: an
    /// allocation, a metadata fetch, a frame.
    pub handovers: nat,
    /// Calls of the deallocator.
    pub releases: nat,
    /// Calls of the constructor.
    pub constructions: nat,
    /// Calls that fetch the metadata.
    pub metadata_fetches: nat,
    /// Calls of the destructor.
    pub destructions: nat,
}

/// The tally after one more step.
pub open spec fn tally_step(tally: Tally, step: Step) -> Tally {
    match step {
        Step::Arm(_) => tally,
        Step::Alloc(_) => Tally { handovers: tally.handovers + 1, ..tally },
        Step::Write(_, _) => tally,
        Step::Read(_, _) => tally,
        Step::Free(_, _) => Tally { releases: tally.releases + 1, ..tally },
        Step::CreateCore(_, _) => Tally { constructions: tally.constructions + 1, ..tally },
        Step::GetMetadata(_) => Tally {
            handovers: tally.handovers + 1,
            metadata_fetches: tally.metadata_fetches + 1,
            ..tally
        },
        Step::ControllerInput(_, _) => tally,
        Step::ClockUntilFrame(_) => Tally { handovers: tally.handovers + 1, ..tally },
        Step::FreeEmulator(_) => Tally { destructions: tally.destructions + 1, ..tally },
    }
}

/// The tally of a log.
pub open spec fn tally(steps: Seq<Step>) -> Tally
    decreases steps.len(),
{
    if steps.len() == 0 {
        Tally { handovers: 0, releases: 0, constructions: 0, metadata_fetches: 0, destructions: 0 }
    } else {
        tally_step(tally(steps.drop_last()), steps.last())
    }
}

/// The tally of a log that has grown by one step is the tally of the log,
/// one step on.
pub proof fn lemma_tally_push(steps: Seq<Step>, step: Step)
    ensures
        tally(steps.push(step)) == tally_step(tally(steps), step),
{
    assert(steps.push(step).drop_last() =~= steps);
}

/// A loaded guest with the means to enter it and to move buffers in and out
/// of its memory.
pub struct Marshaller {
    store: Store<String>,
    instance: Instance,
    memory: Memory,
    alloc_vec: TypedFunc<u32, u32>,
    free_vec: TypedFunc<(u32, u32), ()>,
    create_core: TypedFunc<(u32, u32), u32>,
    get_metadata: TypedFunc<u32, u64>,
    controller_input: TypedFunc<(u32, u32), ()>,
    clock_until_frame: TypedFunc<u32, u64>,
    free_emulator: TypedFunc<u32, ()>,
    live: Ghost<Multiset<(u32, u32)>>,
    steps: Ghost<Seq<Step>>,
}

impl Marshaller {
    /// The instance, the memory and all seven functions belong to the
    /// marshaller's store.
    pub closed spec fn wf(&self) -> bool {
        &&& instance_owner(self.instance) == store_id(self.store)
        &&& memory_owner(self.memory) == store_id(self.store)
        &&& owner_u32_u32(self.alloc_vec) == store_id(self.store)
        &&& owner_pair_unit(self.free_vec) == store_id(self.store)
        &&& owner_pair_u32(self.create_core) == store_id(self.store)
        &&& owner_u32_u64(self.get_metadata) == store_id(self.store)
        &&& owner_pair_unit(self.controller_input) == store_id(self.store)
        &&& owner_u32_u64(self.clock_until_frame) == store_id(self.store)
        &&& owner_u32_unit(self.free_emulator) == store_id(self.store)
    }

    /// The guest's linear memory as it is now.
    pub closed spec fn memory(&self) -> Seq<u8> {
        linear_memory(self.store, self.memory)
    }

    /// The ledger: the guest buffers that the host owns and has not yet
    /// released, each as `(ptr, length)`.
    pub closed spec fn live(&self) -> Multiset<(u32, u32)> {
        self.live@
    }

    /// The log: every step taken at the boundary so far, oldest first.
    pub closed spec fn steps(&self) -> Seq<Step> {
        self.steps@
    }

    /// Compiles and instantiates a core, arms a first deadline of
    /// `timeout_ms`, and resolves the memory and all seven functions, so that
    /// a module that lacks one is refused before the guest is entered.
    ///
    /// The engine decides whether the module is accepted; the error says at
    /// which step it was not. The host owns no buffer of a fresh guest, and
    /// has done nothing yet but arm the deadline.
    pub fn load(clock: &EpochClock, core: &[u8], timeout_ms: u64) -> (result: Result<
        Marshaller,
        RunnerError,
    >)
        ensures
            match result {
                Ok(marshaller) => {
                    &&& marshaller.wf()
                    &&& marshaller.live() == Multiset::<(u32, u32)>::empty()
                    &&& marshaller.steps() == seq![Step::Arm(deadline_ticks_spec(timeout_ms))]
                },
                Err(error) => error == RunnerError::InvalidModule || error
                    == RunnerError::Instantiation || error is MissingExport,
            },
    {
        let module = match module_new(&clock.engine, core) {
            Ok(module) => module,
            Err(_) => {
                return Err(RunnerError::InvalidModule);
            },
        };
        let mut store = store_new(&clock.engine, "Rustretro Wasmtime Runner".to_string());
        let instance = match instance_new(&mut store, &module) {
            Ok(instance) => instance,
            Err(_) => {
                return Err(RunnerError::Instantiation);
            },
        };
        store_set_epoch_deadline(&mut store, deadline_ticks(timeout_ms));
        let memory = match instance_get_memory(&mut store, &instance, Export::Memory.name()) {
            Some(memory) => memory,
            None => {
                return Err(RunnerError::MissingExport(Export::Memory));
            },
        };
        let alloc_vec = match typed_u32_u32(&mut store, &instance, Export::AllocVec.name()) {
            Ok(func) => func,
            Err(_) => {
                return Err(RunnerError::MissingExport(Export::AllocVec));
            },
        };
        let free_vec = match typed_pair_unit(&mut store, &instance, Export::FreeVec.name()) {
            Ok(func) => func,
            Err(_) => {
                return Err(RunnerError::MissingExport(Export::FreeVec));
            },
        };
        let create_core = match typed_pair_u32(&mut store, &instance, Export::CreateCore.name()) {
            Ok(func) => func,
            Err(_) => {
                return Err(RunnerError::MissingExport(Export::CreateCore));
            },
        };
        let get_metadata = match typed_u32_u64(&mut store, &instance, Export::GetMetadata.name()) {
            Ok(func) => func,
            Err(_) => {
                return Err(RunnerError::MissingExport(Export::GetMetadata));
            },
        };
        let controller_input = match typed_pair_unit(
            &mut store,
            &instance,
            Export::ControllerInput.name(),
        ) {
            Ok(func) => func,
            Err(_) => {
                return Err(RunnerError::MissingExport(Export::ControllerInput));
            },
        };
        let clock_until_frame = match typed_u32_u64(
            &mut store,
            &instance,
            Export::ClockUntilFrame.name(),
        ) {
            Ok(func) => func,
            Err(_) => {
                return Err(RunnerError::MissingExport(Export::ClockUntilFrame));
            },
        };
        let free_emulator = match typed_u32_unit(
            &mut store,
            &instance,
            Export::FreeEmulator.name(),
        ) {
            Ok(func) => func,
            Err(_) => {
                return Err(RunnerError::MissingExport(Export::FreeEmulator));
            },
        };
        Ok(
            Marshaller {
                store,
                instance,
                memory,
                alloc_vec,
                free_vec,
                create_core,
                get_metadata,
                controller_input,
                clock_until_frame,
                free_emulator,
                live: Ghost(Multiset::empty()),
                steps: Ghost(Seq::empty().push(Step::Arm(deadline_ticks_spec(timeout_ms)))),
            },
        )
    }

    /// Arms the deadline for the guest calls that follow: the guest traps once
    /// the clock has ticked `deadline_ticks(timeout_ms)` times from now.
    pub fn arm(&mut self, timeout_ms: u64)
        requires
            old(self).wf(),
        ensures
            final(self).wf(),
            final(self).live() == old(self).live(),
            final(self).steps() == old(self).steps().push(
                Step::Arm(deadline_ticks_spec(timeout_ms)),
            ),
    {
        store_set_epoch_deadline(&mut self.store, deadline_ticks(timeout_ms));
        self.steps = Ghost(self.steps@.push(Step::Arm(deadline_ticks_spec(timeout_ms))));
    }

    /// Copies `bytes` into a fresh guest buffer.
    ///
    /// Asks the guest's allocator for `bytes.len()` bytes, once, and writes
    /// `bytes` at the address it returns. On success the guest's memory holds
    /// `bytes` there, the host owns the buffer, and the log has grown by the
    /// allocation and the write. Bytes that no 32-bit length
    /// can count are refused before the guest is entered. An address whose
    /// region leaves the guest's memory breaks the contract; nothing is
    /// written then and nothing is owned.
    pub fn stage(&mut self, bytes: &[u8]) -> (result: Result<WasmVec, RunnerError>)
        requires
            old(self).wf(),
        ensures
            final(self).wf(),
            match result {
                Ok(buffer) => {
                    &&& bytes@.len() <= u32::MAX
                    &&& buffer@.1 == bytes@.len()
                    &&& holds_at(final(self).memory(), buffer@.0, bytes@)
                    &&& final(self).live() == old(self).live().insert(buffer@)
                    &&& final(self).steps() == old(self).steps().push(Step::Alloc(buffer@.1)).push(
                        Step::Write(buffer@.0, bytes@),
                    )
                },
                Err(error) => {
                    &&& final(self).live() == old(self).live()
                    &&& error == RunnerError::BufferTooLarge <==> bytes@.len() > u32::MAX
                    &&& error == RunnerError::BufferTooLarge || error.is_guest_fault()
                    &&& error == RunnerError::BufferTooLarge ==> final(self).memory() == old(
                        self,
                    ).memory() && final(self).steps() == old(self).steps()
                    &&& error.is_guest_fault() ==> final(self).steps() == old(self).steps().push(
                        Step::Alloc(bytes@.len() as u32),
                    )
                },
            },
    {
        if bytes.len() as u64 > 0xFFFF_FFFF {
            return Err(RunnerError::BufferTooLarge);
        }
        let length: u32 = bytes.len() as u32;
        self.steps = Ghost(self.steps@.push(Step::Alloc(length)));
        let ptr: u32 = match call_u32_u32(&mut self.store, &self.alloc_vec, length) {
            Ok(ptr) => ptr,
            Err(error) => {
                return Err(fault(&error));
            },
        };
        match memory_write(&mut self.store, &self.memory, ptr as usize, bytes) {
            Ok(()) => {
                assert(self.memory().subrange(ptr as int, ptr + bytes@.len()) =~= bytes@);
                self.live = Ghost(self.live@.insert((ptr, length)));
                self.steps = Ghost(self.steps@.push(Step::Write(ptr, bytes@)));
                Ok(WasmVec { ptr, length })
            },
            Err(_) => Err(RunnerError::AbiViolation),
        }
    }

    /// Gives a buffer back to the guest's allocator.
    ///
    /// Calls the guest's deallocator with the buffer's address and length,
    /// once, and strikes the buffer from the ledger whether or not the guest
    /// trapped in that call.
    pub fn release(&mut self, buffer: WasmVec) -> (result: Result<(), RunnerError>)
        requires
            old(self).wf(),
            old(self).live().count(buffer@) > 0,
        ensures
            final(self).wf(),
            final(self).live() == old(self).live().remove(buffer@),
            final(self).steps() == old(self).steps().push(Step::Free(buffer@.0, buffer@.1)),
            result matches Err(error) ==> error.is_trap(),
    {
        self.live = Ghost(self.live@.remove((buffer.ptr, buffer.length)));
        self.steps = Ghost(self.steps@.push(Step::Free(buffer.ptr, buffer.length)));
        match call_pair_unit(&mut self.store, &self.free_vec, buffer.ptr, buffer.length) {
            Ok(()) => Ok(()),
            Err(error) => Err(fault(&error)),
        }
    }

    /// Takes over the buffer that a packed word names, copies it out of guest
    /// memory and gives it back to the guest.
    ///
    /// A region that leaves the guest's memory is a violation of the contract:
    /// nothing is read, nothing is released and the guest is left as it was.
    /// Otherwise the host owns the buffer from the copy until the release that
    /// follows at once, so the ledger ends as it began and the log grows by
    /// the copy and that one release; the call fails only if the guest traps
    /// in its deallocator.
    pub fn read_out(&mut self, packed: u64) -> (result: Result<Vec<u8>, RunnerError>)
        requires
            old(self).wf(),
        ensures
            final(self).wf(),
            final(self).live() == old(self).live(),
            match result {
                Ok(bytes) => {
                    &&& read_out_spec(old(self).memory(), packed) == Some(bytes@)
                    &&& final(self).steps() == old(self).steps().push(
                        Step::Read(packed_ptr(packed), bytes@),
                    ).push(Step::Free(packed_ptr(packed), packed_length(packed)))
                },
                Err(error) => {
                    &&& error == RunnerError::AbiViolation <==> read_out_spec(
                        old(self).memory(),
                        packed,
                    ) is None
                    &&& error == RunnerError::AbiViolation || error.is_trap()
                    &&& error == RunnerError::AbiViolation ==> final(self).memory() == old(
                        self,
                    ).memory() && final(self).steps() == old(self).steps()
                    &&& error.is_trap() ==> read_out_spec(old(self).memory(), packed) is Some
                        && final(self).steps() == old(self).steps().push(
                        Step::Read(packed_ptr(packed), read_out_spec(old(self).memory(), packed)->0),
                    ).push(Step::Free(packed_ptr(packed), packed_length(packed)))
                },
            },
    {
        let (ptr, length) = expand_return_pointer(packed);
        let size: usize = memory_size(&self.store, &self.memory);
        if ptr as u64 + length as u64 > size as u64 {
            return Err(RunnerError::AbiViolation);
        }
        let bytes = match memory_read(&self.store, &self.memory, ptr as usize, length as usize) {
            Ok(bytes) => bytes,
            Err(_) => {
                return Err(RunnerError::AbiViolation);
            },
        };
        self.live = Ghost(self.live@.insert((ptr, length)));
        self.steps = Ghost(self.steps@.push(Step::Read(ptr, bytes@)));
        let buffer = WasmVec { ptr, length };
        let released = self.release(buffer);
        assert(self.live@ =~= old(self).live@);
        match released {
            Ok(()) => Ok(bytes),
            Err(error) => Err(error),
        }
    }

    /// Builds the core from a ROM that has been staged. The guest reads the
    /// buffer and does not keep it: the host still owns it afterwards.
    /// Returns the handle of the core that the guest built.
    pub fn create_core(&mut self, rom: &WasmVec) -> (result: Result<CoreHandle, RunnerError>)
        requires
            old(self).wf(),
            old(self).live().count(rom@) > 0,
        ensures
            final(self).wf(),
            final(self).live() == old(self).live(),
            final(self).steps() == old(self).steps().push(Step::CreateCore(rom@.0, rom@.1)),
            result matches Err(error) ==> error.is_trap(),
    {
        self.steps = Ghost(self.steps@.push(Step::CreateCore(rom.ptr, rom.length)));
        match call_pair_u32(&mut self.store, &self.create_core, rom.ptr, rom.length) {
            Ok(raw) => Ok(CoreHandle { raw }),
            Err(error) => Err(fault(&error)),
        }
    }

    /// Asks a core for its metadata record. Returns the packed word of the
    /// buffer that holds it, which is the host's to read out.
    pub fn get_metadata(&mut self, core: &CoreHandle) -> (result: Result<u64, RunnerError>)
        requires
            old(self).wf(),
        ensures
            final(self).wf(),
            final(self).live() == old(self).live(),
            final(self).steps() == old(self).steps().push(Step::GetMetadata(core@)),
            result matches Err(error) ==> error.is_trap(),
    {
        self.steps = Ghost(self.steps@.push(Step::GetMetadata(core.raw)));
        match call_u32_u64(&mut self.store, &self.get_metadata, core.raw) {
            Ok(packed) => Ok(packed),
            Err(error) => Err(fault(&error)),
        }
    }

    /// Gives a core the controller mask `bits`.
    pub fn controller_input(&mut self, core: &CoreHandle, bits: u32) -> (result: Result<
        (),
        RunnerError,
    >)
        requires
            old(self).wf(),
        ensures
            final(self).wf(),
            final(self).live() == old(self).live(),
            final(self).steps() == old(self).steps().push(Step::ControllerInput(core@, bits)),
            result matches Err(error) ==> error.is_trap(),
    {
        self.steps = Ghost(self.steps@.push(Step::ControllerInput(core.raw, bits)));
        match call_pair_unit(&mut self.store, &self.controller_input, core.raw, bits) {
            Ok(()) => Ok(()),
            Err(error) => Err(fault(&error)),
        }
    }

    /// Runs a core until its next frame is ready. Returns the packed word of
    /// the buffer that holds the frame, which is the host's to read out.
    pub fn clock_until_frame(&mut self, core: &CoreHandle) -> (result: Result<u64, RunnerError>)
        requires
            old(self).wf(),
        ensures
            final(self).wf(),
            final(self).live() == old(self).live(),
            final(self).steps() == old(self).steps().push(Step::ClockUntilFrame(core@)),
            result matches Err(error) ==> error.is_trap(),
    {
        self.steps = Ghost(self.steps@.push(Step::ClockUntilFrame(core.raw)));
        match call_u32_u64(&mut self.store, &self.clock_until_frame, core.raw) {
            Ok(packed) => Ok(packed),
            Err(error) => Err(fault(&error)),
        }
    }

    /// Destroys a core and uses up its handle.
    pub fn free_emulator(&mut self, core: CoreHandle) -> (result: Result<(), RunnerError>)
        requires
            old(self).wf(),
        ensures
            final(self).wf(),
            final(self).live() == old(self).live(),
            final(self).steps() == old(self).steps().push(Step::FreeEmulator(core@)),
            result matches Err(error) ==> error.is_trap(),
    {
        self.steps = Ghost(self.steps@.push(Step::FreeEmulator(core.raw)));
        match call_u32_unit(&mut self.store, &self.free_emulator, core.raw) {
            Ok(()) => Ok(()),
            Err(error) => Err(fault(&error)),
        }
    }
}

/// Round trip: once a memory holds `bytes` at `ptr`, as it does after staging
/// them, reading out the packed word for that buffer yields `bytes` unchanged.
pub proof fn lemma_stage_read_out_round_trip(memory: Seq<u8>, ptr: u32, bytes: Seq<u8>)
    requires
        bytes.len() <= u32::MAX,
        holds_at(memory, ptr, bytes),
    ensures
        read_out_spec(memory, crate::packed::pack(ptr, bytes.len() as u32)) == Some(bytes),
{
    crate::packed::lemma_expand_of_packed(ptr, bytes.len() as u32);
}

} // verus!
