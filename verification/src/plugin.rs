//! The interface a core implements on the guest side.

use vstd::prelude::*;
use crate::controller_input::ControllerInput;
use crate::metadata::Metadata;

verus! {

/// The four operations of a core. A guest module exports them, behind a thin
/// adapter, under the names that [`crate::error::Export`] lists.
pub trait RustretroPlugin {
    /// Builds the core from the bytes of a ROM.
    fn create_core(rom: &[u8]) -> Box<Self>;

    /// Describes the core.
    fn get_metadata(&self) -> Box<Metadata>;

    /// Tells the core which buttons are held from now on.
    fn controller_input(&mut self, input: ControllerInput);

    /// Runs the core until a frame is ready and returns its pixels.
    fn clock_until_frame(&mut self) -> Vec<u8>;
}

} // verus!
