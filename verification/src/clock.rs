//! The epoch clock that deadlines are measured against.
//!
//! Compiled guest code compares the engine's epoch counter with its store's
//! deadline at every function entry and loop back edge, and traps once the
//! counter has reached the deadline. The runtime arms a deadline before it
//! enters the guest; whoever owns a clock handle moves the counter forward, one
//! tick per [`TICK_MILLIS`] milliseconds.

use vstd::prelude::*;
use wasmtime::{Config, Engine, OptLevel};
use crate::error::RunnerError;
use crate::wasm::{
    config_cranelift_opt_level,
    config_epoch_interruption,
    config_memory_guard_size,
    config_memory_reservation,
    config_memory_reservation_for_growth,
    config_new,
    config_settings,
    engine_clone,
    engine_id,
    engine_increment_epoch,
    engine_new,
    engine_settings,
    Settings,
};

verus! {

/// Milliseconds between two ticks of the clock.
pub const TICK_MILLIS: u64 = 1;

/// The longest deadline, in ticks, that is ever armed. Longer timeouts are cut
/// down to it.
pub const MAX_DEADLINE_TICKS: u64 = 0x4000_0000_0000_0000;

/// The number of ticks a timeout in milliseconds stands for.
pub open spec fn deadline_ticks_spec(timeout_ms: u64) -> u64 {
    if timeout_ms / TICK_MILLIS <= MAX_DEADLINE_TICKS {
        timeout_ms / TICK_MILLIS
    } else {
        MAX_DEADLINE_TICKS
    }
}

/// The number of ticks a timeout in milliseconds stands for: one per
/// [`TICK_MILLIS`], and never more than [`MAX_DEADLINE_TICKS`].
pub fn deadline_ticks(timeout_ms: u64) -> (ticks: u64)
    ensures
        ticks == deadline_ticks_spec(timeout_ms),
        ticks <= MAX_DEADLINE_TICKS,
        ticks <= timeout_ms,
{
    let ticks: u64 = timeout_ms / TICK_MILLIS;
    if ticks <= MAX_DEADLINE_TICKS {
        ticks
    } else {
        MAX_DEADLINE_TICKS
    }
}

/// An engine set up for deadline interruption, together with its epoch
/// counter.
pub struct EpochClock {
    pub(crate) engine: Engine,
}

/// The settings of every engine of this library: compiled code is optimized
/// for speed and checks the epoch counter against its store's deadline.
/// Whatever else a fresh `Config` holds is left as it is.
fn settings() -> (config: Config)
    ensures
        config_settings(config).opt_level == Some(OptLevel::Speed),
        config_settings(config).epoch_interruption == Some(true),
{
    let mut config = config_new();
    config_cranelift_opt_level(&mut config, OptLevel::Speed);
    config_epoch_interruption(&mut config, true);
    config
}

/// Builds the engine for given settings. Fails with [`RunnerError::Engine`]
/// when the engine refuses them; a clock that is built has exactly the
/// settings that were given.
fn build(config: &Config) -> (result: Result<EpochClock, RunnerError>)
    ensures
        match result {
            Ok(clock) => clock.settings() == config_settings(*config),
            Err(error) => error == RunnerError::Engine,
        },
{
    match engine_new(config) {
        Ok(engine) => Ok(EpochClock { engine }),
        Err(_) => Err(RunnerError::Engine),
    }
}

impl EpochClock {
    /// The settings that the clock's engine was built from.
    pub closed spec fn settings(&self) -> Settings {
        engine_settings(self.engine)
    }

    /// The identity of the clock: handles with one identity share one epoch
    /// counter, so that a tick of one is a tick of all.
    pub closed spec fn id(&self) -> int {
        engine_id(self.engine)
    }

    /// Builds an engine that optimizes for speed and whose compiled code
    /// honours deadlines. Fails with [`RunnerError::Engine`], and in no other
    /// way, when the engine refuses these settings.
    pub fn new() -> (result: Result<EpochClock, RunnerError>)
        ensures
            match result {
                Ok(clock) => {
                    &&& clock.settings().opt_level == Some(OptLevel::Speed)
                    &&& clock.settings().epoch_interruption == Some(true)
                },
                Err(error) => error == RunnerError::Engine,
            },
    {
        let config = settings();
        build(&config)
    }

    /// As [`EpochClock::new`], for hosts that are short of address space: a
    /// guest memory reserves `reservation` bytes when it is created and as
    /// many again whenever growing moves it, followed by `guard` inaccessible
    /// bytes, instead of the engine's far larger defaults.
    pub fn with_memory_limits(reservation: u64, guard: u64) -> (result: Result<
        EpochClock,
        RunnerError,
    >)
        ensures
            match result {
                Ok(clock) => clock.settings() == (Settings {
                    opt_level: Some(OptLevel::Speed),
                    epoch_interruption: Some(true),
                    memory_reservation: Some(reservation),
                    memory_reservation_for_growth: Some(reservation),
                    memory_guard_size: Some(guard),
                }),
                Err(error) => error == RunnerError::Engine,
            },
    {
        let mut config = settings();
        config_memory_reservation(&mut config, reservation);
        config_memory_reservation_for_growth(&mut config, reservation);
        config_memory_guard_size(&mut config, guard);
        build(&config)
    }

    /// A second handle to the same clock, for the thread that ticks it: it has
    /// the identity and the settings of this one.
    pub fn share(&self) -> (handle: EpochClock)
        ensures
            handle.id() == self.id(),
            handle.settings() == self.settings(),
    {
        EpochClock { engine: engine_clone(&self.engine) }
    }

    /// Moves the clock forward by one tick.
    pub fn tick(&self) {
        engine_increment_epoch(&self.engine)
    }
}

} // verus!
