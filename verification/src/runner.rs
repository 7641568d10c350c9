//! The runtime that hosts one core from construction to teardown.
//!
//! A runner is `Ready` from the moment it is built. Every entry into the guest
//! runs under a freshly armed deadline. The first failure of the guest, be it a
//! trap or a breach of the binary contract, poisons the runner: from then on
//! it refuses to enter the guest, and can only be closed. Closing destroys the
//! core, once; a closed runner refuses everything without entering the guest.

use vstd::prelude::*;
use vstd::multiset::Multiset;
use crate::clock::{deadline_ticks_spec, EpochClock};
use crate::controller_input::ControllerInput;
use crate::error::RunnerError;
use crate::marshal::{
    lemma_tally_push,
    read_out_spec,
    tally,
    CoreHandle,
    Marshaller,
    Step,
    Tally,
};
use crate::metadata::Metadata;
use crate::packed::{packed_length, packed_ptr};

verus! {

/// Where a runner stands in its life.
#[derive(Clone, Copy, Debug, PartialEq, Eq, Structural)]
pub enum RunnerState {
    /// The guest has kept to the contract so far.
    Ready,
    /// The guest has failed once; only closing is possible.
    Poisoned,
    /// The core has been destroyed.
    TornDown,
}

impl RunnerState {
    /// The error with which a runner in this state refuses to enter the
    /// guest, if it refuses.
    pub open spec fn refusal_spec(self) -> Option<RunnerError> {
        match self {
            RunnerState::Ready => None,
            RunnerState::Poisoned => Some(RunnerError::Poisoned),
            RunnerState::TornDown => Some(RunnerError::Closed),
        }
    }

    /// The error with which a runner in this state refuses to enter the
    /// guest, if it refuses.
    pub fn refusal(self) -> (refusal: Option<RunnerError>)
        ensures
            refusal == self.refusal_spec(),
    {
        match self {
            RunnerState::Ready => None,
            RunnerState::Poisoned => Some(RunnerError::Poisoned),
            RunnerState::TornDown => Some(RunnerError::Closed),
        }
    }
}

/// Accepts a frame if and only if it has the length that the metadata
/// demands, and hands it on untouched. A frame of any other length is a breach
/// of the binary contract; it is neither cut nor padded.
pub fn check_frame(metadata: &Metadata, frame: Vec<u8>) -> (result: Result<Vec<u8>, RunnerError>)
    ensures
        match result {
            Ok(accepted) => accepted@ == frame@ && frame@.len() == metadata.frame_len(),
            Err(error) => error == RunnerError::AbiViolation && frame@.len()
                != metadata.frame_len(),
        },
{
    if metadata.is_frame_len(frame.len()) {
        Ok(frame)
    } else {
        Err(RunnerError::AbiViolation)
    }
}

/// The steps of a construction that succeeds: the deadline is armed, the ROM
/// is staged at `rom_ptr`, the core is built from it, the ROM buffer is
/// released, the metadata is fetched, and its record is copied out of the
/// buffer that the packed word `metadata` names before that buffer is
/// released.
pub open spec fn construction_steps(
    timeout_ms: u64,
    rom: Seq<u8>,
    rom_ptr: u32,
    handle: u32,
    metadata: u64,
    record: Seq<u8>,
) -> Seq<Step> {
    seq![
        Step::Arm(deadline_ticks_spec(timeout_ms)),
        Step::Alloc(rom.len() as u32),
        Step::Write(rom_ptr, rom),
        Step::CreateCore(rom_ptr, rom.len() as u32),
        Step::Free(rom_ptr, rom.len() as u32),
        Step::GetMetadata(handle),
        Step::Read(packed_ptr(metadata), record),
        Step::Free(packed_ptr(metadata), packed_length(metadata)),
    ]
}

/// The steps of entering the guest for a frame: the deadline is armed and the
/// core is run.
pub open spec fn frame_steps(timeout_ms: u64, handle: u32) -> Seq<Step> {
    seq![Step::Arm(deadline_ticks_spec(timeout_ms)), Step::ClockUntilFrame(handle)]
}

/// The steps of reading out the buffer a packed word names: its bytes are
/// copied, then it is released.
pub open spec fn read_out_steps(packed: u64, bytes: Seq<u8>) -> Seq<Step> {
    seq![
        Step::Read(packed_ptr(packed), bytes),
        Step::Free(packed_ptr(packed), packed_length(packed)),
    ]
}

/// The tally of a construction: two buffers were handed over, the ROM's and
/// the metadata's, and two were released; the core was built once, its
/// metadata fetched once, and nothing was destroyed.
pub proof fn lemma_construction_tally(
    timeout_ms: u64,
    rom: Seq<u8>,
    rom_ptr: u32,
    handle: u32,
    metadata: u64,
    record: Seq<u8>,
)
    ensures
        tally(construction_steps(timeout_ms, rom, rom_ptr, handle, metadata, record))
            == (Tally {
            handovers: 2,
            releases: 2,
            constructions: 1,
            metadata_fetches: 1,
            destructions: 0,
        }),
{
    let rom_length = rom.len() as u32;
    let s0 = Seq::<Step>::empty();
    let s1 = s0.push(Step::Arm(deadline_ticks_spec(timeout_ms)));
    let s2 = s1.push(Step::Alloc(rom_length));
    let s3 = s2.push(Step::Write(rom_ptr, rom));
    let s4 = s3.push(Step::CreateCore(rom_ptr, rom_length));
    let s5 = s4.push(Step::Free(rom_ptr, rom_length));
    let s6 = s5.push(Step::GetMetadata(handle));
    let s7 = s6.push(Step::Read(packed_ptr(metadata), record));
    let s8 = s7.push(Step::Free(packed_ptr(metadata), packed_length(metadata)));
    lemma_tally_push(s0, Step::Arm(deadline_ticks_spec(timeout_ms)));
    lemma_tally_push(s1, Step::Alloc(rom_length));
    lemma_tally_push(s2, Step::Write(rom_ptr, rom));
    lemma_tally_push(s3, Step::CreateCore(rom_ptr, rom_length));
    lemma_tally_push(s4, Step::Free(rom_ptr, rom_length));
    lemma_tally_push(s5, Step::GetMetadata(handle));
    lemma_tally_push(s6, Step::Read(packed_ptr(metadata), record));
    lemma_tally_push(s7, Step::Free(packed_ptr(metadata), packed_length(metadata)));
    assert(s8 =~= construction_steps(timeout_ms, rom, rom_ptr, handle, metadata, record));
}

/// Reading out a buffer adds one release to the tally of a log and nothing
/// else, and appending its two steps is the same as pushing them one by one.
pub proof fn lemma_read_out_tally(steps: Seq<Step>, packed: u64, bytes: Seq<u8>)
    ensures
        steps + read_out_steps(packed, bytes) == steps.push(
            Step::Read(packed_ptr(packed), bytes),
        ).push(Step::Free(packed_ptr(packed), packed_length(packed))),
        tally(steps + read_out_steps(packed, bytes)) == (Tally {
            releases: tally(steps).releases + 1,
            ..tally(steps)
        }),
{
    let read = Step::Read(packed_ptr(packed), bytes);
    let free = Step::Free(packed_ptr(packed), packed_length(packed));
    lemma_tally_push(steps, read);
    lemma_tally_push(steps.push(read), free);
    assert(steps + read_out_steps(packed, bytes) =~= steps.push(read).push(free));
}

/// A loaded core together with everything needed to drive it.
pub struct Runner {
    emulator: Option<CoreHandle>,
    emulator_pointer: Ghost<u32>,
    timeout_ms: u64,
    metadata: Metadata,
    state: RunnerState,
    marshaller: Marshaller,
}

impl Runner {
    /// The runner's guest is well formed, the host owns no guest buffer, the
    /// runner holds the handle of its core until it is torn down, and the log
    /// agrees with the runner's state.
    pub closed spec fn wf(&self) -> bool {
        &&& self.marshaller.wf()
        &&& self.marshaller.live() == Multiset::<(u32, u32)>::empty()
        &&& match self.emulator {
            Some(core) => core@ == self.emulator_pointer@ && self.state != RunnerState::TornDown,
            None => self.state == RunnerState::TornDown,
        }
        &&& tally(self.marshaller.steps()).releases <= tally(self.marshaller.steps()).handovers
        &&& self.state == RunnerState::Ready ==> tally(self.marshaller.steps()).releases == tally(
            self.marshaller.steps(),
        ).handovers
        &&& tally(self.marshaller.steps()).constructions == 1
        &&& tally(self.marshaller.steps()).metadata_fetches == 1
        &&& tally(self.marshaller.steps()).destructions == (if self.state
            == RunnerState::TornDown {
            1nat
        } else {
            0nat
        })
    }

    /// The state of the runner.
    pub closed spec fn state_spec(&self) -> RunnerState {
        self.state
    }

    /// The metadata that was fetched when the runner was built.
    pub closed spec fn metadata(&self) -> Metadata {
        self.metadata
    }

    /// The timeout, in milliseconds, that every entry into the guest gets.
    pub closed spec fn timeout(&self) -> u64 {
        self.timeout_ms
    }

    /// The opaque handle that the guest gave to its core.
    pub closed spec fn handle(&self) -> u32 {
        self.emulator_pointer@
    }

    /// The guest buffers that the host owns and has not yet released.
    pub closed spec fn owned_buffers(&self) -> Multiset<(u32, u32)> {
        self.marshaller.live()
    }

    /// Every step the runner has taken at the boundary so far, oldest first.
    pub closed spec fn steps(&self) -> Seq<Step> {
        self.marshaller.steps()
    }

    /// Loads a core and builds it from a ROM.
    ///
    /// Compiles and instantiates `core`, resolves the memory and all seven
    /// functions before the guest is entered, stages `rom`, builds the core,
    /// releases the ROM buffer, fetches the metadata record, releases its
    /// buffer and hands the record's bytes to `decode`, once. All of this runs
    /// under one deadline of `timeout_ms`, measured on `clock`.
    ///
    /// A ROM that no 32-bit length can count is refused before anything is
    /// loaded. Beyond that the engine, the guest and `decode` decide; the
    /// error names the step that failed, no runner is produced then, and the
    /// guest is dropped as a whole. A runner that is produced is ready, owns
    /// no guest buffer, and has taken exactly the steps of a construction,
    /// with the ROM's bytes written where the constructor was told to read
    /// them and with the record that `decode` accepted copied out of the
    /// buffer that the metadata call named.
    pub fn new<F: FnOnce(Vec<u8>) -> Option<Metadata>>(
        clock: &EpochClock,
        core: &[u8],
        rom: &[u8],
        timeout_ms: u64,
        decode: F,
    ) -> (result: Result<Runner, RunnerError>)
        requires
            forall|bytes: Vec<u8>| decode.requires((bytes,)),
        ensures
            match result {
                Ok(runner) => {
                    &&& rom@.len() <= u32::MAX
                    &&& runner.wf()
                    &&& runner.state_spec() == RunnerState::Ready
                    &&& runner.timeout() == timeout_ms
                    &&& runner.owned_buffers() == Multiset::<(u32, u32)>::empty()
                    &&& exists|rom_ptr: u32, metadata: u64, record: Vec<u8>|
                        {
                            &&& decode.ensures((record,), Some(runner.metadata()))
                            &&& record@.len() == packed_length(metadata)
                            &&& runner.steps() == #[trigger] construction_steps(
                                timeout_ms,
                                rom@,
                                rom_ptr,
                                runner.handle(),
                                metadata,
                                record@,
                            )
                        }
                },
                Err(error) => {
                    &&& error == RunnerError::BufferTooLarge <==> rom@.len() > u32::MAX
                    &&& error != RunnerError::Poisoned
                    &&& error != RunnerError::Closed
                    &&& error != RunnerError::Engine
                },
            },
    {
        if rom.len() as u64 > 0xFFFF_FFFF {
            return Err(RunnerError::BufferTooLarge);
        }
        let mut marshaller = match Marshaller::load(clock, core, timeout_ms) {
            Ok(marshaller) => marshaller,
            Err(error) => {
                return Err(error);
            },
        };
        let rom_buffer = match marshaller.stage(rom) {
            Ok(buffer) => buffer,
            Err(error) => {
                return Err(error);
            },
        };
        let ghost rom_ptr = rom_buffer@.0;
        let emulator = match marshaller.create_core(&rom_buffer) {
            Ok(handle) => handle,
            Err(error) => {
                return Err(error);
            },
        };
        let ghost emulator_pointer = emulator@;
        match marshaller.release(rom_buffer) {
            Ok(()) => {},
            Err(error) => {
                return Err(error);
            },
        }
        let packed = match marshaller.get_metadata(&emulator) {
            Ok(packed) => packed,
            Err(error) => {
                return Err(error);
            },
        };
        let metadata_bytes = match marshaller.read_out(packed) {
            Ok(bytes) => bytes,
            Err(error) => {
                return Err(error);
            },
        };
        let ghost sent = metadata_bytes;
        let metadata = match decode(metadata_bytes) {
            Some(metadata) => metadata,
            None => {
                return Err(RunnerError::InvalidMetadata);
            },
        };
        proof {
            lemma_construction_tally(timeout_ms, rom@, rom_ptr, emulator_pointer, packed, sent@);
            assert(marshaller.live() =~= Multiset::<(u32, u32)>::empty());
            assert(marshaller.steps() =~= construction_steps(
                timeout_ms,
                rom@,
                rom_ptr,
                emulator_pointer,
                packed,
                sent@,
            ));
        }
        let runner = Runner {
            emulator: Some(emulator),
            emulator_pointer: Ghost(emulator_pointer),
            timeout_ms,
            metadata,
            state: RunnerState::Ready,
            marshaller,
        };
        assert(decode.ensures((sent,), Some(runner.metadata())));
        assert(runner.steps() == construction_steps(
            timeout_ms,
            rom@,
            rom_ptr,
            runner.handle(),
            packed,
            sent@,
        ));
        Ok(runner)
    }

    /// Tells the core which buttons are held from now on.
    ///
    /// A runner that is not ready refuses at once and takes no step. A ready
    /// runner arms the deadline and hands the guest its core's handle and the
    /// mask; if the guest traps, the runner is poisoned and the trap is
    /// reported.
    pub fn controller_input(&mut self, input: ControllerInput) -> (result: Result<
        (),
        RunnerError,
    >)
        requires
            old(self).wf(),
        ensures
            final(self).wf(),
            final(self).metadata() == old(self).metadata(),
            final(self).timeout() == old(self).timeout(),
            final(self).handle() == old(self).handle(),
            final(self).owned_buffers() == Multiset::<(u32, u32)>::empty(),
            match old(self).state_spec().refusal_spec() {
                Some(refusal) => {
                    &&& result == Err::<(), RunnerError>(refusal)
                    &&& final(self).state_spec() == old(self).state_spec()
                    &&& final(self).steps() == old(self).steps()
                },
                None => {
                    &&& final(self).steps() == old(self).steps().push(
                        Step::Arm(deadline_ticks_spec(old(self).timeout())),
                    ).push(Step::ControllerInput(old(self).handle(), input@ as u32))
                    &&& match result {
                        Ok(()) => final(self).state_spec() == RunnerState::Ready,
                        Err(error) => error.is_trap() && final(self).state_spec()
                            == RunnerState::Poisoned,
                    }
                },
            },
    {
        match self.state.refusal() {
            Some(refusal) => {
                return Err(refusal);
            },
            None => {},
        }
        let ghost before = self.marshaller.steps();
        let bits: u32 = input.bits() as u32;
        proof {
            let armed = Step::Arm(deadline_ticks_spec(self.timeout_ms));
            lemma_tally_push(before, armed);
            lemma_tally_push(
                before.push(armed),
                Step::ControllerInput(self.emulator_pointer@, bits),
            );
        }
        let entered = match &self.emulator {
            Some(core) => {
                self.marshaller.arm(self.timeout_ms);
                self.marshaller.controller_input(core, bits)
            },
            None => {
                return Err(RunnerError::Closed);
            },
        };
        match entered {
            Ok(()) => Ok(()),
            Err(error) => {
                self.state = RunnerState::Poisoned;
                Err(error)
            },
        }
    }

    /// Runs the core until a frame is ready and returns its pixels.
    ///
    /// A runner that is not ready refuses at once and takes no step. A ready
    /// runner arms the deadline, enters the guest, copies the frame out of
    /// guest memory, gives the guest's buffer back and checks the frame's
    /// length. A frame that is returned has exactly the length that the
    /// metadata demands, and its buffer has been released, once. A trap, an
    /// elapsed deadline, a buffer outside the guest's memory or a frame of
    /// another length poisons the runner and is reported; the buffer has then
    /// been released once if it was taken over, and not at all if it was not.
    /// Either way the host owns no guest buffer afterwards.
    pub fn clock_until_frame(&mut self) -> (result: Result<Vec<u8>, RunnerError>)
        requires
            old(self).wf(),
        ensures
            final(self).wf(),
            final(self).metadata() == old(self).metadata(),
            final(self).timeout() == old(self).timeout(),
            final(self).handle() == old(self).handle(),
            final(self).owned_buffers() == Multiset::<(u32, u32)>::empty(),
            match old(self).state_spec().refusal_spec() {
                Some(refusal) => {
                    &&& result == Err::<Vec<u8>, RunnerError>(refusal)
                    &&& final(self).state_spec() == old(self).state_spec()
                    &&& final(self).steps() == old(self).steps()
                },
                None => match result {
                    Ok(frame) => {
                        &&& frame@.len() == old(self).metadata().frame_len()
                        &&& final(self).state_spec() == RunnerState::Ready
                        &&& exists|packed: u64|
                            {
                                &&& packed_length(packed) == frame@.len()
                                &&& final(self).steps() == old(self).steps() + frame_steps(
                                    old(self).timeout(),
                                    old(self).handle(),
                                ) + #[trigger] read_out_steps(packed, frame@)
                            }
                    },
                    Err(error) => {
                        &&& error.is_guest_fault()
                        &&& final(self).state_spec() == RunnerState::Poisoned
                        &&& {
                            ||| final(self).steps() == old(self).steps() + frame_steps(
                                old(self).timeout(),
                                old(self).handle(),
                            )
                            ||| exists|packed: u64, bytes: Seq<u8>|
                                {
                                    &&& bytes.len() == packed_length(packed)
                                    &&& final(self).steps() == old(self).steps() + frame_steps(
                                        old(self).timeout(),
                                        old(self).handle(),
                                    ) + #[trigger] read_out_steps(packed, bytes)
                                }
                        }
                    },
                },
            },
    {
        match self.state.refusal() {
            Some(refusal) => {
                return Err(refusal);
            },
            None => {},
        }
        let ghost before = self.marshaller.steps();
        let ghost entered = before + frame_steps(self.timeout_ms, self.emulator_pointer@);
        proof {
            let armed = Step::Arm(deadline_ticks_spec(self.timeout_ms));
            lemma_tally_push(before, armed);
            lemma_tally_push(before.push(armed), Step::ClockUntilFrame(self.emulator_pointer@));
            assert(entered =~= before.push(armed).push(
                Step::ClockUntilFrame(self.emulator_pointer@),
            ));
        }
        let clocked = match &self.emulator {
            Some(core) => {
                self.marshaller.arm(self.timeout_ms);
                self.marshaller.clock_until_frame(core)
            },
            None => {
                return Err(RunnerError::Closed);
            },
        };
        let packed = match clocked {
            Ok(packed) => packed,
            Err(error) => {
                self.state = RunnerState::Poisoned;
                return Err(error);
            },
        };
        let ghost memory = self.marshaller.memory();
        let frame = match self.marshaller.read_out(packed) {
            Ok(bytes) => bytes,
            Err(error) => {
                self.state = RunnerState::Poisoned;
                proof {
                    if error.is_trap() {
                        lemma_read_out_tally(entered, packed, read_out_spec(memory, packed)->0);
                    }
                }
                return Err(error);
            },
        };
        proof {
            lemma_read_out_tally(entered, packed, frame@);
        }
        match check_frame(&self.metadata, frame) {
            Ok(frame) => Ok(frame),
            Err(error) => {
                self.state = RunnerState::Poisoned;
                Err(error)
            },
        }
    }

    /// The metadata that was fetched when the runner was built. The guest is
    /// not entered.
    pub fn get_metadata(&self) -> (metadata: &Metadata)
        ensures
            *metadata == self.metadata(),
    {
        &self.metadata
    }

    /// The state of the runner.
    pub fn state(&self) -> (state: RunnerState)
        ensures
            state == self.state_spec(),
    {
        self.state
    }

    /// The timeout, in milliseconds, that every entry into the guest gets.
    pub fn timeout_ms(&self) -> (timeout_ms: u64)
        ensures
            timeout_ms == self.timeout(),
    {
        self.timeout_ms
    }

    /// Destroys the core.
    ///
    /// A runner that has been closed before refuses with
    /// [`RunnerError::Closed`] and takes no step, so the destructor is never
    /// entered twice. Any other runner, ready or poisoned, arms the deadline
    /// and calls the guest's destructor with the core's handle, once. It is
    /// torn down afterwards whether or not the guest trapped in that call.
    pub fn close(&mut self) -> (result: Result<(), RunnerError>)
        requires
            old(self).wf(),
        ensures
            final(self).wf(),
            final(self).metadata() == old(self).metadata(),
            final(self).timeout() == old(self).timeout(),
            final(self).handle() == old(self).handle(),
            final(self).owned_buffers() == Multiset::<(u32, u32)>::empty(),
            final(self).state_spec() == RunnerState::TornDown,
            old(self).state_spec() == RunnerState::TornDown ==> {
                &&& result == Err::<(), RunnerError>(RunnerError::Closed)
                &&& final(self).steps() == old(self).steps()
            },
            old(self).state_spec() != RunnerState::TornDown ==> {
                &&& final(self).steps() == old(self).steps().push(
                    Step::Arm(deadline_ticks_spec(old(self).timeout())),
                ).push(Step::FreeEmulator(old(self).handle()))
                &&& result matches Err(error) ==> error.is_trap()
            },
    {
        let core = match self.emulator.take() {
            Some(core) => core,
            None => {
                return Err(RunnerError::Closed);
            },
        };
        proof {
            let armed = Step::Arm(deadline_ticks_spec(self.timeout_ms));
            lemma_tally_push(self.marshaller.steps(), armed);
            lemma_tally_push(
                self.marshaller.steps().push(armed),
                Step::FreeEmulator(self.emulator_pointer@),
            );
        }
        self.state = RunnerState::TornDown;
        self.marshaller.arm(self.timeout_ms);
        self.marshaller.free_emulator(core)
    }
}

/// Every buffer is released exactly once. At no time has the deallocator been
/// called more often than buffers were handed to the host, so none was
/// released twice; the host owns no buffer between two calls; and as long as
/// the runner is ready, every buffer that was handed over has been released,
/// so none has leaked.
pub proof fn lemma_buffers_released_exactly_once(runner: Runner)
    requires
        runner.wf(),
    ensures
        runner.owned_buffers() == Multiset::<(u32, u32)>::empty(),
        tally(runner.steps()).releases <= tally(runner.steps()).handovers,
        runner.state_spec() == RunnerState::Ready ==> tally(runner.steps()).releases == tally(
            runner.steps(),
        ).handovers,
{
}

/// The core is built once and its metadata is fetched once, never again; the
/// destructor has been entered once if the runner is torn down, and not at
/// all if it is not.
pub proof fn lemma_core_lifetime(runner: Runner)
    requires
        runner.wf(),
    ensures
        tally(runner.steps()).constructions == 1,
        tally(runner.steps()).metadata_fetches == 1,
        tally(runner.steps()).destructions == (if runner.state_spec() == RunnerState::TornDown {
            1nat
        } else {
            0nat
        }),
{
}

} // verus!
