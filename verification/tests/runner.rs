use rustretro::{
    ControllerInput, EpochClock, Export, Metadata, PixelFormat, Runner, RunnerError, RunnerState,
};

const FRAME_LEN: usize = 256 * 240 * 4;

const METADATA: &str =
    r#"{"name":"Minimal","width":256,"height":240,"pixel_format":"RGBA","frames_per_seconds":59.94}"#;

/// A small core in text form. Its allocator is a stack: a release that does
/// not match the latest allocation, in address and in length, traps. Every
/// frame is filled with the controller mask and starts with four counters:
/// allocations, releases, the ROM's length and the ROM's first byte.
const CORE: &str = r#"
(module
  (memory (export "memory") 16)
  (global $next (mut i32) (i32.const 8192))
  (global $allocs (mut i32) (i32.const 0))
  (global $frees (mut i32) (i32.const 0))
  (global $input (mut i32) (i32.const 0))
  (global $alive (mut i32) (i32.const 0))
  (global $rom_len (mut i32) (i32.const 0))
  (global $rom_first (mut i32) (i32.const 0))
  (data (i32.const 16) "METADATA_TEXT")
  (func $alloc (export "__rustretro_plugin_alloc_vec") (param $len i32) (result i32)
    (local $ptr i32)
    (local.set $ptr (global.get $next))
    (global.set $next (i32.add (global.get $next) (local.get $len)))
    (global.set $allocs (i32.add (global.get $allocs) (i32.const 1)))
    (local.get $ptr))
  (func (export "__rustretro_plugin_free_vec") (param $ptr i32) (param $len i32)
    (global.set $frees (i32.add (global.get $frees) (i32.const 1)))
    (if (i32.eq (i32.add (local.get $ptr) (local.get $len)) (global.get $next))
      (then (global.set $next (local.get $ptr)))
      (else (unreachable))))
  (func $check (param $handle i32)
    (if (i32.ne (local.get $handle) (i32.const 7)) (then (unreachable)))
    (if (i32.eqz (global.get $alive)) (then (unreachable))))
  (func $pack (param $ptr i32) (param $len i32) (result i64)
    (i64.or
      (i64.extend_i32_u (local.get $ptr))
      (i64.shl (i64.extend_i32_u (local.get $len)) (i64.const 32))))
  (func (export "__rustretro_plugin_create_core") (param $ptr i32) (param $len i32) (result i32)
    (if (global.get $alive) (then (unreachable)))
    (global.set $alive (i32.const 1))
    (global.set $rom_len (local.get $len))
    (if (local.get $len)
      (then (global.set $rom_first (i32.load8_u (local.get $ptr)))))
    (if (i32.le_u (local.get $len) (i32.const 4096))
      (then (memory.copy (i32.const 4096) (local.get $ptr) (local.get $len))))
    (i32.const 7))
  (func (export "__rustretro_plugin_get_metadata") (param $handle i32) (result i64)
    (local $ptr i32)
    (call $check (local.get $handle))
    GET_METADATA_BODY)
  (func (export "__rustretro_plugin_controller_input") (param $handle i32) (param $bits i32)
    (call $check (local.get $handle))
    (global.set $input (local.get $bits)))
  (func (export "__rustretro_plugin_clock_until_frame") (param $handle i32) (result i64)
    (local $ptr i32)
    (call $check (local.get $handle))
    CLOCK_BODY)
  (func (export "__rustretro_plugin_free_emulator") (param $handle i32)
    (call $check (local.get $handle))
    (global.set $alive (i32.const 0)))
)
"#;

const GET_METADATA_BODY: &str = r#"
    (local.set $ptr (call $alloc (i32.const METADATA_LEN)))
    (memory.copy (local.get $ptr) (i32.const 16) (i32.const METADATA_LEN))
    (call $pack (local.get $ptr) (i32.const METADATA_LEN))"#;

const ECHO_ROM_BODY: &str = r#"
    (local.set $ptr (call $alloc (global.get $rom_len)))
    (memory.copy (local.get $ptr) (i32.const 4096) (global.get $rom_len))
    (call $pack (local.get $ptr) (global.get $rom_len))"#;

const CLOCK_BODY: &str = r#"
    (local.set $ptr (call $alloc (i32.const FRAME_LEN)))
    (memory.fill (local.get $ptr) (global.get $input) (i32.const FRAME_LEN))
    (i32.store (local.get $ptr) (global.get $allocs))
    (i32.store offset=4 (local.get $ptr) (global.get $frees))
    (i32.store offset=8 (local.get $ptr) (global.get $rom_len))
    (i32.store offset=12 (local.get $ptr) (global.get $rom_first))
    (call $pack (local.get $ptr) (i32.const FRAME_LEN))"#;

fn core_with(get_metadata: &str, clock: &str, frame_len: usize) -> Vec<u8> {
    CORE.replace("GET_METADATA_BODY", get_metadata)
        .replace("CLOCK_BODY", clock)
        .replace("METADATA_TEXT", &METADATA.replace('"', "\\\""))
        .replace("METADATA_LEN", &METADATA.len().to_string())
        .replace("FRAME_LEN", &frame_len.to_string())
        .into_bytes()
}

fn minimal_core() -> Vec<u8> {
    core_with(GET_METADATA_BODY, CLOCK_BODY, FRAME_LEN)
}

fn decode(bytes: Vec<u8>) -> Option<Metadata> {
    let value: serde_json::Value = serde_json::from_slice(&bytes).ok()?;
    let pixel_format = match value.get("pixel_format")?.as_str()? {
        "RGBA" => PixelFormat::RGBA,
        _ => return None,
    };
    Some(Metadata {
        name: value.get("name")?.as_str()?.to_string(),
        width: u32::try_from(value.get("width")?.as_u64()?).ok()?,
        height: u32::try_from(value.get("height")?.as_u64()?).ok()?,
        pixel_format,
        frames_per_seconds_bits: (value.get("frames_per_seconds")?.as_f64()? as f32).to_bits(),
    })
}

fn counter(frame: &[u8], index: usize) -> u32 {
    let at = index * 4;
    u32::from_le_bytes([frame[at], frame[at + 1], frame[at + 2], frame[at + 3]])
}

fn small_clock() -> EpochClock {
    EpochClock::with_memory_limits(1 << 21, 1 << 16).expect("the engine accepts the settings")
}

fn load(core: &[u8], rom: &[u8]) -> Result<Runner, RunnerError> {
    let clock = small_clock();
    Runner::new(&clock, core, rom, 1000, decode)
}

#[test]
fn end_to_end_with_a_minimal_core() {
    let clock = small_clock();
    let mut runner = Runner::new(&clock, &minimal_core(), &[0x4E], 1000, decode).unwrap();
    assert_eq!(runner.state(), RunnerState::Ready);
    assert_eq!(runner.timeout_ms(), 1000);
    let metadata = runner.get_metadata();
    assert_eq!(metadata.name, "Minimal");
    assert_eq!(metadata.width, 256);
    assert_eq!(metadata.height, 240);
    assert_eq!(metadata.pixel_format, PixelFormat::RGBA);
    assert_eq!(f32::from_bits(metadata.frames_per_seconds_bits), 59.94f32);
    let frame = runner.clock_until_frame().unwrap();
    assert_eq!(frame.len(), 245_760);
    assert_eq!(runner.state(), RunnerState::Ready);
    assert_eq!(runner.close(), Ok(()));
    assert_eq!(runner.state(), RunnerState::TornDown);
}

#[test]
fn a_closed_runner_refuses_everything() {
    // The guest traps on a handle whose core is gone, so a second entry into
    // the destructor, or any other entry, would show as a trap.
    let mut runner = load(&minimal_core(), &[0]).unwrap();
    assert_eq!(runner.close(), Ok(()));
    assert_eq!(runner.close(), Err(RunnerError::Closed));
    assert_eq!(runner.clock_until_frame(), Err(RunnerError::Closed));
    assert_eq!(runner.controller_input(ControllerInput::b()), Err(RunnerError::Closed));
    assert_eq!(runner.state(), RunnerState::TornDown);
    assert_eq!(runner.get_metadata().height, 240);
}

#[test]
fn every_frame_has_the_length_the_metadata_demands() {
    let mut runner = load(&minimal_core(), &[1, 2, 3]).unwrap();
    for _ in 0..5 {
        let frame = runner.clock_until_frame().unwrap();
        let metadata = runner.get_metadata();
        assert_eq!(frame.len() as u64, metadata.width as u64 * metadata.height as u64 * 4);
    }
    assert_eq!(runner.close(), Ok(()));
}

#[test]
fn every_buffer_is_released_exactly_once() {
    let mut runner = load(&minimal_core(), &[9, 8, 7]).unwrap();
    // The ROM buffer and the metadata buffer came and went while loading. A
    // frame counts itself as allocated and not yet released.
    let first = runner.clock_until_frame().unwrap();
    assert_eq!(counter(&first, 0), 3);
    assert_eq!(counter(&first, 1), 2);
    let second = runner.clock_until_frame().unwrap();
    assert_eq!(counter(&second, 0), 4);
    assert_eq!(counter(&second, 1), 3);
    let third = runner.clock_until_frame().unwrap();
    assert_eq!(counter(&third, 0), counter(&third, 1) + 1);
    // The guest's allocator traps on a release that does not match the latest
    // allocation, so a double release would have poisoned the runner.
    assert_eq!(runner.state(), RunnerState::Ready);
    assert_eq!(runner.close(), Ok(()));
}

#[test]
fn the_rom_reaches_the_guest_unchanged() {
    let mut runner = load(&minimal_core(), &[0xAB, 1, 2, 3, 4]).unwrap();
    let frame = runner.clock_until_frame().unwrap();
    assert_eq!(counter(&frame, 2), 5);
    assert_eq!(counter(&frame, 3), 0xAB);
    assert_eq!(runner.close(), Ok(()));
}

#[test]
fn staged_bytes_come_back_unchanged() {
    let rom: Vec<u8> = (0..=255u8).chain(0..=255u8).collect();
    let echo = core_with(ECHO_ROM_BODY, CLOCK_BODY, FRAME_LEN);
    let clock = small_clock();
    let mut seen: Vec<u8> = Vec::new();
    let result = Runner::new(&clock, &echo, &rom, 1000, |bytes: Vec<u8>| {
        seen = bytes;
        Some(Metadata::default())
    });
    let mut runner = result.unwrap();
    assert_eq!(runner.close(), Ok(()));
    assert_eq!(seen, rom);
}

#[test]
fn an_empty_rom_is_staged_and_released() {
    let echo = core_with(ECHO_ROM_BODY, CLOCK_BODY, FRAME_LEN);
    let clock = small_clock();
    let mut seen: Option<Vec<u8>> = None;
    let mut runner = Runner::new(&clock, &echo, &[], 1000, |bytes: Vec<u8>| {
        seen = Some(bytes);
        Some(Metadata::default())
    })
    .unwrap();
    assert_eq!(runner.close(), Ok(()));
    assert_eq!(seen, Some(Vec::new()));
}

#[test]
fn the_controller_mask_reaches_the_guest() {
    let mut runner = load(&minimal_core(), &[0]).unwrap();
    let mut input = ControllerInput::empty();
    input.insert(ControllerInput::up());
    input.insert(ControllerInput::right());
    assert_eq!(runner.controller_input(input), Ok(()));
    let frame = runner.clock_until_frame().unwrap();
    assert!(frame[16..].iter().all(|byte| *byte == 0x09));
    assert_eq!(runner.controller_input(ControllerInput::a()), Ok(()));
    let frame = runner.clock_until_frame().unwrap();
    assert!(frame[16..].iter().all(|byte| *byte == 0x80));
    assert_eq!(runner.close(), Ok(()));
}

#[test]
fn a_frame_of_another_length_is_rejected() {
    let short = core_with(GET_METADATA_BODY, CLOCK_BODY, FRAME_LEN - 1);
    let mut runner = load(&short, &[0]).unwrap();
    assert_eq!(runner.clock_until_frame(), Err(RunnerError::AbiViolation));
    assert_eq!(runner.state(), RunnerState::Poisoned);
    assert_eq!(runner.close(), Ok(()));

    let long = core_with(GET_METADATA_BODY, CLOCK_BODY, FRAME_LEN + 4);
    let mut runner = load(&long, &[0]).unwrap();
    assert_eq!(runner.clock_until_frame(), Err(RunnerError::AbiViolation));
    assert_eq!(runner.state(), RunnerState::Poisoned);
}

#[test]
fn a_buffer_outside_guest_memory_is_rejected() {
    // Sixteen pages are 0x100000 bytes; this frame would end one byte later.
    let outside = core_with(
        GET_METADATA_BODY,
        "(call $pack (i32.const 0xC4001) (i32.const FRAME_LEN))",
        FRAME_LEN,
    );
    let mut runner = load(&outside, &[0]).unwrap();
    assert_eq!(runner.clock_until_frame(), Err(RunnerError::AbiViolation));
    assert_eq!(runner.state(), RunnerState::Poisoned);
    assert_eq!(runner.close(), Ok(()));
}

#[test]
fn a_buffer_that_ends_with_guest_memory_is_accepted() {
    // The guest's allocator would trap on this release, so the frame is read
    // and the trap of the release is what is reported.
    let edge = core_with(
        GET_METADATA_BODY,
        "(call $pack (i32.const 0xC4000) (i32.const FRAME_LEN))",
        FRAME_LEN,
    );
    let mut runner = load(&edge, &[0]).unwrap();
    assert_eq!(runner.clock_until_frame(), Err(RunnerError::GuestTrap));
    assert_eq!(runner.state(), RunnerState::Poisoned);
}

#[test]
fn metadata_outside_guest_memory_fails_construction() {
    let outside = core_with(
        "(i64.const 0xFFFFFFFF_FFFFFFFF)",
        CLOCK_BODY,
        FRAME_LEN,
    );
    assert_eq!(load(&outside, &[0]).err(), Some(RunnerError::AbiViolation));
}

#[test]
fn a_trap_poisons_the_runner() {
    let trapping = core_with(GET_METADATA_BODY, "(unreachable)", FRAME_LEN);
    let mut runner = load(&trapping, &[0]).unwrap();
    assert_eq!(runner.clock_until_frame(), Err(RunnerError::GuestTrap));
    assert_eq!(runner.state(), RunnerState::Poisoned);
    assert_eq!(runner.clock_until_frame(), Err(RunnerError::Poisoned));
    assert_eq!(runner.controller_input(ControllerInput::a()), Err(RunnerError::Poisoned));
    assert_eq!(runner.state(), RunnerState::Poisoned);
    assert_eq!(runner.get_metadata().width, 256);
    assert_eq!(runner.close(), Ok(()));
}

#[test]
fn an_elapsed_deadline_fails_construction_with_a_timeout() {
    let clock = small_clock();
    let result = Runner::new(&clock, &minimal_core(), &[0], 0, decode);
    assert_eq!(result.err(), Some(RunnerError::Timeout));
}

#[test]
fn close_enters_the_destructor() {
    let core = String::from_utf8(minimal_core())
        .unwrap()
        .replace("(global.set $alive (i32.const 0))", "(unreachable)")
        .into_bytes();
    let mut runner = load(&core, &[0]).unwrap();
    assert_eq!(runner.close(), Err(RunnerError::GuestTrap));
    assert_eq!(runner.state(), RunnerState::TornDown);
    assert_eq!(runner.close(), Err(RunnerError::Closed));
}

#[test]
fn malformed_module_bytes_are_refused() {
    assert_eq!(load(b"not a module", &[0]).err(), Some(RunnerError::InvalidModule));
    assert_eq!(load(&[0x00, 0x61, 0x73, 0x6D, 0xFF], &[0]).err(), Some(RunnerError::InvalidModule));
}

#[test]
fn a_module_with_imports_is_not_instantiated() {
    let core = b"(module (import \"env\" \"f\" (func)) (memory (export \"memory\") 1))";
    assert_eq!(load(core, &[0]).err(), Some(RunnerError::Instantiation));
}

#[test]
fn each_missing_export_is_named() {
    let exports = [
        Export::Memory,
        Export::AllocVec,
        Export::FreeVec,
        Export::CreateCore,
        Export::GetMetadata,
        Export::ControllerInput,
        Export::ClockUntilFrame,
        Export::FreeEmulator,
    ];
    for export in exports {
        let quoted = format!("\"{}\"", export.name());
        let text = String::from_utf8(minimal_core()).unwrap();
        assert!(text.contains(&quoted));
        let core = text.replace(&quoted, "\"renamed\"").into_bytes();
        assert_eq!(load(&core, &[0]).err(), Some(RunnerError::MissingExport(export)));
    }
}

#[test]
fn an_export_of_another_signature_is_refused() {
    let text = String::from_utf8(minimal_core()).unwrap();
    let core = text
        .replace(
            "(func (export \"__rustretro_plugin_free_emulator\") (param $handle i32)",
            "(func (export \"__rustretro_plugin_free_emulator\") (param $handle i32) (param i32)",
        )
        .into_bytes();
    assert_eq!(
        load(&core, &[0]).err(),
        Some(RunnerError::MissingExport(Export::FreeEmulator))
    );
}

#[test]
fn metadata_that_does_not_decode_fails_construction() {
    let clock = small_clock();
    let result = Runner::new(&clock, &minimal_core(), &[0], 1000, |_bytes: Vec<u8>| None);
    assert_eq!(result.err(), Some(RunnerError::InvalidMetadata));
    let echo = core_with(ECHO_ROM_BODY, CLOCK_BODY, FRAME_LEN);
    assert_eq!(
        Runner::new(&clock, &echo, b"{}", 1000, decode).err(),
        Some(RunnerError::InvalidMetadata)
    );
}

#[test]
fn the_decoder_sees_the_record_the_guest_wrote() {
    let clock = small_clock();
    let mut seen: Vec<u8> = Vec::new();
    let mut runner = Runner::new(&clock, &minimal_core(), &[0], 1000, |bytes: Vec<u8>| {
        seen = bytes.clone();
        decode(bytes)
    })
    .unwrap();
    assert_eq!(runner.close(), Ok(()));
    assert_eq!(seen, METADATA.as_bytes());
}

#[test]
fn one_clock_serves_several_runners() {
    let clock = small_clock();
    let ticker = clock.share();
    let mut first = Runner::new(&clock, &minimal_core(), &[1], 1000, decode).unwrap();
    let mut second = Runner::new(&clock, &minimal_core(), &[2], 1000, decode).unwrap();
    ticker.tick();
    assert_eq!(counter(&first.clock_until_frame().unwrap(), 3), 1);
    assert_eq!(counter(&second.clock_until_frame().unwrap(), 3), 2);
    assert_eq!(first.close(), Ok(()));
    assert_eq!(second.close(), Ok(()));
}
