//! What can go wrong while hosting a core, and which export it went wrong at.

use vstd::prelude::*;

verus! {

/// One of the items a core module has to export.
#[derive(Clone, Copy, Debug, PartialEq, Eq, Structural)]
pub enum Export {
    /// The module's linear memory.
    Memory,
    /// `(len) -> ptr`: allocates a buffer inside the guest.
    AllocVec,
    /// `(ptr, len)`: gives a buffer back to the guest's allocator.
    FreeVec,
    /// `(ptr, len) -> handle`: builds the core from the ROM bytes at `ptr`.
    CreateCore,
    /// `(handle) -> packed`: returns the serialized metadata record.
    GetMetadata,
    /// `(handle, bits)`: updates the controller state.
    ControllerInput,
    /// `(handle) -> packed`: runs the core until one frame is ready.
    ClockUntilFrame,
    /// `(handle)`: destroys the core.
    FreeEmulator,
}

impl Export {
    /// The name under which the module exports this item.
    pub open spec fn name_spec(self) -> Seq<char> {
        match self {
            Export::Memory => "memory"@,
            Export::AllocVec => "__rustretro_plugin_alloc_vec"@,
            Export::FreeVec => "__rustretro_plugin_free_vec"@,
            Export::CreateCore => "__rustretro_plugin_create_core"@,
            Export::GetMetadata => "__rustretro_plugin_get_metadata"@,
            Export::ControllerInput => "__rustretro_plugin_controller_input"@,
            Export::ClockUntilFrame => "__rustretro_plugin_clock_until_frame"@,
            Export::FreeEmulator => "__rustretro_plugin_free_emulator"@,
        }
    }

    /// The name under which the module exports this item.
    pub fn name(self) -> (name: &'static str)
        ensures
            name@ == self.name_spec(),
    {
        match self {
            Export::Memory => "memory",
            Export::AllocVec => "__rustretro_plugin_alloc_vec",
            Export::FreeVec => "__rustretro_plugin_free_vec",
            Export::CreateCore => "__rustretro_plugin_create_core",
            Export::GetMetadata => "__rustretro_plugin_get_metadata",
            Export::ControllerInput => "__rustretro_plugin_controller_input",
            Export::ClockUntilFrame => "__rustretro_plugin_clock_until_frame",
            Export::FreeEmulator => "__rustretro_plugin_free_emulator",
        }
    }
}

/// Why an operation of the runtime failed.
#[derive(Clone, Copy, Debug, PartialEq, Eq, Structural)]
pub enum RunnerError {
    /// The engine refused its configuration.
    Engine,
    /// The module bytes did not decode, validate or compile.
    InvalidModule,
    /// The module could not be instantiated.
    Instantiation,
    /// An export is absent, is not of the expected kind, or has another
    /// signature.
    MissingExport(Export),
    /// A buffer is longer than a guest length, which has 32 bits, can say.
    BufferTooLarge,
    /// The deadline ran out while the guest was executing.
    Timeout,
    /// The guest trapped for a reason other than the deadline.
    GuestTrap,
    /// The guest broke the binary contract: a buffer it handed over does not
    /// lie inside its memory, or a frame has the wrong length.
    AbiViolation,
    /// The metadata record could not be decoded.
    InvalidMetadata,
    /// An earlier failure has poisoned the runtime; only closing it is
    /// possible.
    Poisoned,
    /// The runtime has been closed; its core is gone.
    Closed,
}

impl RunnerError {
    /// Whether this is one of the failures a guest causes while it runs or
    /// hands over a buffer.
    pub open spec fn is_guest_fault(self) -> bool {
        self == RunnerError::Timeout || self == RunnerError::GuestTrap || self
            == RunnerError::AbiViolation
    }

    /// Whether this is one of the two ways a guest call itself can fail.
    pub open spec fn is_trap(self) -> bool {
        self == RunnerError::Timeout || self == RunnerError::GuestTrap
    }
}

} // verus!
