//! A host runtime for emulation cores that are compiled to WebAssembly.
//!
//! A core is a module with a fixed set of exports. The runtime loads it,
//! stages the ROM into the guest's memory, drives it one frame at a time under
//! a deadline, and copies every buffer the guest hands over out of guest memory
//! before giving it back to the guest's allocator.

pub mod clock;
pub mod controller_input;
pub mod emulation;
pub mod error;
pub mod keyboard;
pub mod marshal;
pub mod metadata;
pub mod packed;
pub mod pixel_format;
pub mod plugin;
pub mod runner;
pub mod wasm;

pub use crate::clock::{deadline_ticks, EpochClock, MAX_DEADLINE_TICKS, TICK_MILLIS};
pub use crate::controller_input::ControllerInput;
pub use crate::emulation::{wait_before_redraw, EmulationMessage, FramePacer, Pace};
pub use crate::error::{Export, RunnerError};
pub use crate::keyboard::{handle_key, virtual_keycode_to_controller_input, Key};
pub use crate::marshal::{fault_of_trap, CoreHandle, Marshaller, Step, WasmVec};
pub use crate::metadata::Metadata;
pub use crate::packed::{expand_return_pointer, pack_return_pointer};
pub use crate::pixel_format::PixelFormat;
pub use crate::plugin::RustretroPlugin;
pub use crate::runner::{check_frame, Runner, RunnerState};
