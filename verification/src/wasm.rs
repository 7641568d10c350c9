//! The WebAssembly engine, as far as the runtime relies on it.
//!
//! Nothing in this file is proved. It declares the engine's types, gives names
//! to the few things of the engine that contracts speak of, and holds one thin
//! function for each call into the engine, with the part of the engine's
//! documented behaviour that the runtime builds on.

use vstd::prelude::*;
use wasmtime::{
    Config, Engine, Instance, Memory, MemoryAccessError, Module, OptLevel, Store, Trap, TypedFunc,
};

verus! {

/// `wasmtime::Config`: the settings an engine is built from.
#[verifier::external_type_specification]
#[verifier::external_body]
pub struct ExConfig(wasmtime::Config);

/// `wasmtime::Engine`: compiler settings plus the shared epoch counter.
#[verifier::external_type_specification]
#[verifier::external_body]
pub struct ExEngine(wasmtime::Engine);

/// `wasmtime::Module`: a validated and compiled module.
#[verifier::external_type_specification]
#[verifier::external_body]
pub struct ExModule(wasmtime::Module);

/// `wasmtime::Store`: owner of everything an instance holds at run time.
#[verifier::external_type_specification]
#[verifier::external_body]
#[verifier::reject_recursive_types(T)]
pub struct ExStore<T>(wasmtime::Store<T>);

/// `wasmtime::Instance`: handle to an instantiated module inside a store.
#[verifier::external_type_specification]
#[verifier::external_body]
pub struct ExInstance(wasmtime::Instance);

/// `wasmtime::Memory`: handle to a linear memory inside a store.
#[verifier::external_type_specification]
#[verifier::external_body]
pub struct ExMemory(wasmtime::Memory);

/// `wasmtime::TypedFunc`: handle to a function of a store whose signature has
/// been checked against `Params` and `Results`.
#[verifier::external_type_specification]
#[verifier::external_body]
#[verifier::reject_recursive_types(Params)]
#[verifier::reject_recursive_types(Results)]
pub struct ExTypedFunc<Params, Results>(wasmtime::TypedFunc<Params, Results>);

/// `wasmtime::Error`: why a call into the engine failed.
#[verifier::external_type_specification]
#[verifier::external_body]
pub struct ExError(wasmtime::Error);

/// `wasmtime::MemoryAccessError`: a read or write left the linear memory.
#[verifier::external_type_specification]
#[verifier::external_body]
pub struct ExMemoryAccessError(wasmtime::MemoryAccessError);

/// `wasmtime::OptLevel`: how hard the compiler optimizes.
#[verifier::external_type_specification]
pub struct ExOptLevel(wasmtime::OptLevel);

/// `wasmtime::Trap`: the reason the guest stopped executing.
#[verifier::external_type_specification]
pub struct ExTrap(wasmtime::Trap);

/// What a `Config` holds of the five settings that this library writes. A
/// setting is `None` as long as the `Config` holds no value for it, or none
/// that its setter could have written.
pub struct Settings {
    /// The level that `Config::cranelift_opt_level` recorded.
    pub opt_level: Option<OptLevel>,
    /// The flag that `Config::epoch_interruption` recorded.
    pub epoch_interruption: Option<bool>,
    /// The size that `Config::memory_reservation` recorded.
    pub memory_reservation: Option<u64>,
    /// The size that `Config::memory_reservation_for_growth` recorded.
    pub memory_reservation_for_growth: Option<u64>,
    /// The size that `Config::memory_guard_size` recorded.
    pub memory_guard_size: Option<u64>,
}

/// What a `Config` holds of the five settings.
pub uninterp spec fn config_settings(config: Config) -> Settings;

/// What the `Config` that an engine was built from, and that `Engine::config`
/// returns, holds of the five settings.
pub uninterp spec fn engine_settings(engine: Engine) -> Settings;

/// The identity of the engine that a handle refers to. Two handles have one
/// identity exactly when `Engine::same` holds of them: they share one engine
/// and with it one epoch counter.
pub uninterp spec fn engine_id(engine: Engine) -> int;

/// The identity of a store: the `StoreId` that `Store::new` allocates for it
/// and that nothing changes afterwards. Every handle into a store records the
/// identity of that store, and the engine panics when a handle is used with a
/// store of another identity.
pub uninterp spec fn store_id(store: Store<String>) -> int;

/// The identity of the store that an instance handle records.
pub uninterp spec fn instance_owner(instance: Instance) -> int;

/// The identity of the store that a memory handle records.
pub uninterp spec fn memory_owner(memory: Memory) -> int;

/// The identity of the store that a handle to a function `(i32) -> i32`
/// records.
pub uninterp spec fn owner_u32_u32(func: TypedFunc<u32, u32>) -> int;

/// The identity of the store that a handle to a function `(i32, i32) -> i32`
/// records.
pub uninterp spec fn owner_pair_u32(func: TypedFunc<(u32, u32), u32>) -> int;

/// The identity of the store that a handle to a function `(i32) -> i64`
/// records.
pub uninterp spec fn owner_u32_u64(func: TypedFunc<u32, u64>) -> int;

/// The identity of the store that a handle to a function `(i32, i32) -> ()`
/// records.
pub uninterp spec fn owner_pair_unit(func: TypedFunc<(u32, u32), ()>) -> int;

/// The identity of the store that a handle to a function `(i32) -> ()`
/// records.
pub uninterp spec fn owner_u32_unit(func: TypedFunc<u32, ()>) -> int;

/// The bytes that a linear memory of a store holds at the moment, from address
/// zero: what `Memory::data` would borrow.
pub uninterp spec fn linear_memory(store: Store<String>, memory: Memory) -> Seq<u8>;

/// `Config::new`: the default settings. Nothing is claimed of them.
#[verifier::external_body]
pub(crate) fn config_new() -> Config {
    Config::new()
}

/// `Config::cranelift_opt_level`: records the level of optimization in the
/// settings and leaves the other four as they were.
#[verifier::external_body]
pub(crate) fn config_cranelift_opt_level(config: &mut Config, level: OptLevel)
    ensures
        config_settings(*final(config)) == (Settings {
            opt_level: Some(level),
            ..config_settings(*old(config))
        }),
{
    config.cranelift_opt_level(level);
}

/// `Config::epoch_interruption`: records whether compiled code is to check
/// the epoch counter against its store's deadline, and leaves the other four
/// settings as they were.
#[verifier::external_body]
pub(crate) fn config_epoch_interruption(config: &mut Config, enable: bool)
    ensures
        config_settings(*final(config)) == (Settings {
            epoch_interruption: Some(enable),
            ..config_settings(*old(config))
        }),
{
    config.epoch_interruption(enable);
}

/// `Config::memory_reservation`: records how many bytes of address space a
/// linear memory reserves when it is created, and leaves the other four
/// settings as they were.
#[verifier::external_body]
pub(crate) fn config_memory_reservation(config: &mut Config, bytes: u64)
    ensures
        config_settings(*final(config)) == (Settings {
            memory_reservation: Some(bytes),
            ..config_settings(*old(config))
        }),
{
    config.memory_reservation(bytes);
}

/// `Config::memory_reservation_for_growth`: records how many bytes of address
/// space a linear memory reserves beyond its size when growing moves it, and
/// leaves the other four settings as they were.
#[verifier::external_body]
pub(crate) fn config_memory_reservation_for_growth(config: &mut Config, bytes: u64)
    ensures
        config_settings(*final(config)) == (Settings {
            memory_reservation_for_growth: Some(bytes),
            ..config_settings(*old(config))
        }),
{
    config.memory_reservation_for_growth(bytes);
}

/// `Config::memory_guard_size`: records how many bytes of inaccessible address
/// space follow a linear memory, and leaves the other four settings as they
/// were.
#[verifier::external_body]
pub(crate) fn config_memory_guard_size(config: &mut Config, bytes: u64)
    ensures
        config_settings(*final(config)) == (Settings {
            memory_guard_size: Some(bytes),
            ..config_settings(*old(config))
        }),
{
    config.memory_guard_size(bytes);
}

/// `Engine::new`: validates the settings and builds an engine, or says why it
/// cannot. Which of the two is up to the engine. An engine that is built keeps
/// a copy of the `Config`, in which the five settings are as they were given.
#[verifier::external_body]
pub(crate) fn engine_new(config: &Config) -> (result: Result<Engine, wasmtime::Error>)
    ensures
        result matches Ok(engine) ==> engine_settings(engine) == config_settings(*config),
{
    Engine::new(config)
}

/// `Engine::clone`: a second handle to the same engine, and so to the same
/// settings and the same epoch counter.
#[verifier::external_body]
pub(crate) fn engine_clone(engine: &Engine) -> (handle: Engine)
    ensures
        engine_id(handle) == engine_id(*engine),
        engine_settings(handle) == engine_settings(*engine),
{
    engine.clone()
}

/// `Engine::increment_epoch`: adds one to the engine's epoch counter, an
/// atomic add that wraps around.
#[verifier::external_body]
pub(crate) fn engine_increment_epoch(engine: &Engine) {
    engine.increment_epoch()
}

/// `Module::new`: decodes, validates and compiles a module given in binary or
/// text form, or says why it cannot.
#[verifier::external_body]
pub(crate) fn module_new(engine: &Engine, bytes: &[u8]) -> Result<Module, wasmtime::Error> {
    Module::new(engine, bytes)
}

/// `Store::new`: a fresh store that holds `data` and no instance.
#[verifier::external_body]
pub(crate) fn store_new(engine: &Engine, data: String) -> Store<String> {
    Store::new(engine, data)
}

/// `Store::set_epoch_deadline`: sets the store's deadline to the engine's
/// current epoch plus `ticks`. The engine computes that sum in 64 bits; its
/// counter starts at zero and moves by one for each increment, so with `ticks`
/// of at most 2^62 the sum is in range unless the counter has itself passed
/// 2^62. The store keeps its identity.
#[verifier::external_body]
pub(crate) fn store_set_epoch_deadline(store: &mut Store<String>, ticks: u64)
    requires
        ticks <= 0x4000_0000_0000_0000,
    ensures
        store_id(*final(store)) == store_id(*old(store)),
{
    store.set_epoch_deadline(ticks)
}

/// `Instance::new` without imports: instantiates the module in the store and
/// runs its start function. On success the instance belongs to that store.
/// The store keeps its identity either way. The call panics for a store with
/// async support; that is off by default, and no function of this file turns
/// it on.
#[verifier::external_body]
pub(crate) fn instance_new(store: &mut Store<String>, module: &Module) -> (result: Result<
    Instance,
    wasmtime::Error,
>)
    ensures
        store_id(*final(store)) == store_id(*old(store)),
        result matches Ok(instance) ==> instance_owner(instance) == store_id(*old(store)),
{
    Instance::new(store, module, &[])
}

/// `Instance::get_memory`: the exported memory of that name, if there is one.
/// It belongs to the instance's store. The call panics for an instance of
/// another store.
#[verifier::external_body]
pub(crate) fn instance_get_memory(store: &mut Store<String>, instance: &Instance, name: &str) -> (result:
    Option<Memory>)
    requires
        instance_owner(*instance) == store_id(*old(store)),
    ensures
        store_id(*final(store)) == store_id(*old(store)),
        result matches Some(memory) ==> memory_owner(memory) == store_id(*old(store)),
{
    instance.get_memory(store, name)
}

/// `Instance::get_typed_func` at `(i32) -> i32`: the exported function of that
/// name if it has this signature. It belongs to the instance's store. The call
/// panics for an instance of another store.
#[verifier::external_body]
pub(crate) fn typed_u32_u32(store: &mut Store<String>, instance: &Instance, name: &str) -> (result:
    Result<TypedFunc<u32, u32>, wasmtime::Error>)
    requires
        instance_owner(*instance) == store_id(*old(store)),
    ensures
        store_id(*final(store)) == store_id(*old(store)),
        result matches Ok(func) ==> owner_u32_u32(func) == store_id(*old(store)),
{
    instance.get_typed_func::<u32, u32>(store, name)
}

/// `Instance::get_typed_func` at `(i32, i32) -> i32`; see [`typed_u32_u32`].
#[verifier::external_body]
pub(crate) fn typed_pair_u32(store: &mut Store<String>, instance: &Instance, name: &str) -> (result:
    Result<TypedFunc<(u32, u32), u32>, wasmtime::Error>)
    requires
        instance_owner(*instance) == store_id(*old(store)),
    ensures
        store_id(*final(store)) == store_id(*old(store)),
        result matches Ok(func) ==> owner_pair_u32(func) == store_id(*old(store)),
{
    instance.get_typed_func::<(u32, u32), u32>(store, name)
}

/// `Instance::get_typed_func` at `(i32) -> i64`; see [`typed_u32_u32`].
#[verifier::external_body]
pub(crate) fn typed_u32_u64(store: &mut Store<String>, instance: &Instance, name: &str) -> (result:
    Result<TypedFunc<u32, u64>, wasmtime::Error>)
    requires
        instance_owner(*instance) == store_id(*old(store)),
    ensures
        store_id(*final(store)) == store_id(*old(store)),
        result matches Ok(func) ==> owner_u32_u64(func) == store_id(*old(store)),
{
    instance.get_typed_func::<u32, u64>(store, name)
}

/// `Instance::get_typed_func` at `(i32, i32) -> ()`; see [`typed_u32_u32`].
#[verifier::external_body]
pub(crate) fn typed_pair_unit(store: &mut Store<String>, instance: &Instance, name: &str) -> (result:
    Result<TypedFunc<(u32, u32), ()>, wasmtime::Error>)
    requires
        instance_owner(*instance) == store_id(*old(store)),
    ensures
        store_id(*final(store)) == store_id(*old(store)),
        result matches Ok(func) ==> owner_pair_unit(func) == store_id(*old(store)),
{
    instance.get_typed_func::<(u32, u32), ()>(store, name)
}

/// `Instance::get_typed_func` at `(i32) -> ()`; see [`typed_u32_u32`].
#[verifier::external_body]
pub(crate) fn typed_u32_unit(store: &mut Store<String>, instance: &Instance, name: &str) -> (result:
    Result<TypedFunc<u32, ()>, wasmtime::Error>)
    requires
        instance_owner(*instance) == store_id(*old(store)),
    ensures
        store_id(*final(store)) == store_id(*old(store)),
        result matches Ok(func) ==> owner_u32_unit(func) == store_id(*old(store)),
{
    instance.get_typed_func::<u32, ()>(store, name)
}

/// `TypedFunc::call` at `(i32) -> i32`: runs the guest function to its end
/// or to a trap. What it returns, and what it leaves in memory, is up to the
/// guest; the store keeps its identity. The call panics for a function of
/// another store, and for a store with async support; that is off by default,
/// and no function of this file turns it on.
#[verifier::external_body]
pub(crate) fn call_u32_u32(store: &mut Store<String>, func: &TypedFunc<u32, u32>, arg: u32) -> (result:
    Result<u32, wasmtime::Error>)
    requires
        owner_u32_u32(*func) == store_id(*old(store)),
    ensures
        store_id(*final(store)) == store_id(*old(store)),
{
    func.call(store, arg)
}

/// `TypedFunc::call` at `(i32, i32) -> i32`; see [`call_u32_u32`].
#[verifier::external_body]
pub(crate) fn call_pair_u32(
    store: &mut Store<String>,
    func: &TypedFunc<(u32, u32), u32>,
    first: u32,
    second: u32,
) -> (result: Result<u32, wasmtime::Error>)
    requires
        owner_pair_u32(*func) == store_id(*old(store)),
    ensures
        store_id(*final(store)) == store_id(*old(store)),
{
    func.call(store, (first, second))
}

/// `TypedFunc::call` at `(i32) -> i64`; see [`call_u32_u32`].
#[verifier::external_body]
pub(crate) fn call_u32_u64(store: &mut Store<String>, func: &TypedFunc<u32, u64>, arg: u32) -> (result:
    Result<u64, wasmtime::Error>)
    requires
        owner_u32_u64(*func) == store_id(*old(store)),
    ensures
        store_id(*final(store)) == store_id(*old(store)),
{
    func.call(store, arg)
}

/// `TypedFunc::call` at `(i32, i32) -> ()`; see [`call_u32_u32`].
#[verifier::external_body]
pub(crate) fn call_pair_unit(
    store: &mut Store<String>,
    func: &TypedFunc<(u32, u32), ()>,
    first: u32,
    second: u32,
) -> (result: Result<(), wasmtime::Error>)
    requires
        owner_pair_unit(*func) == store_id(*old(store)),
    ensures
        store_id(*final(store)) == store_id(*old(store)),
{
    func.call(store, (first, second))
}

/// `TypedFunc::call` at `(i32) -> ()`; see [`call_u32_u32`].
#[verifier::external_body]
pub(crate) fn call_u32_unit(store: &mut Store<String>, func: &TypedFunc<u32, ()>, arg: u32) -> (result:
    Result<(), wasmtime::Error>)
    requires
        owner_u32_unit(*func) == store_id(*old(store)),
    ensures
        store_id(*final(store)) == store_id(*old(store)),
{
    func.call(store, arg)
}

/// `Memory::data_size`: the number of bytes the memory holds at the moment.
/// The call panics for a memory of another store.
#[verifier::external_body]
pub(crate) fn memory_size(store: &Store<String>, memory: &Memory) -> (size: usize)
    requires
        memory_owner(*memory) == store_id(*store),
    ensures
        size == linear_memory(*store, *memory).len(),
{
    memory.data_size(store)
}

/// `Memory::read` into a fresh buffer of `length` bytes: the bytes from
/// `offset` on, if all of them lie inside the memory, and an error otherwise.
/// The call panics for a memory of another store.
#[verifier::external_body]
pub(crate) fn memory_read(store: &Store<String>, memory: &Memory, offset: usize, length: usize) -> (result:
    Result<Vec<u8>, MemoryAccessError>)
    requires
        memory_owner(*memory) == store_id(*store),
    ensures
        result is Ok <==> offset + length <= linear_memory(*store, *memory).len(),
        result matches Ok(bytes) ==> bytes@ == linear_memory(*store, *memory).subrange(
            offset as int,
            offset + length,
        ),
{
    let mut buffer = vec![0u8; length];
    memory.read(store, offset, &mut buffer)?;
    Ok(buffer)
}

/// `Memory::write`: copies `bytes` into the memory from `offset` on, if all of
/// them fit, and leaves every other byte as it was; writes nothing and returns
/// an error otherwise. The store keeps its identity. The call panics for a
/// memory of another store.
#[verifier::external_body]
pub(crate) fn memory_write(store: &mut Store<String>, memory: &Memory, offset: usize, bytes: &[u8]) -> (result:
    Result<(), MemoryAccessError>)
    requires
        memory_owner(*memory) == store_id(*old(store)),
    ensures
        store_id(*final(store)) == store_id(*old(store)),
        result is Ok <==> offset + bytes@.len() <= linear_memory(*old(store), *memory).len(),
        result is Ok ==> linear_memory(*final(store), *memory) == linear_memory(
            *old(store),
            *memory,
        ).subrange(0, offset as int) + bytes@ + linear_memory(*old(store), *memory).subrange(
            offset + bytes@.len(),
            linear_memory(*old(store), *memory).len() as int,
        ),
        result is Err ==> linear_memory(*final(store), *memory) == linear_memory(
            *old(store),
            *memory,
        ),
{
    memory.write(store, offset, bytes)
}

/// `Error::downcast_ref::<Trap>`: the trap that an error of a guest call
/// carries, if it carries one.
#[verifier::external_body]
pub(crate) fn error_trap(error: &wasmtime::Error) -> Option<Trap> {
    error.downcast_ref::<Trap>().copied()
}

} // verus!
