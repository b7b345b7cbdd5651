//! The boundary to the WebAssembly engine, to WASI and to the parts of the
//! standard library that the host needs.
//!
//! Everything in this file is taken on trust: the types are opaque, and the
//! contract of each function is believed, not proved. The functions are
//! private to the crate; each one makes a single call and converts its
//! arguments and result. An instance and a function never leave this file
//! without the store that owns them.

use crate::outcome::TrapKind;
use crate::wasm_runner::HostState;
use vstd::prelude::*;

verus! {

/// `wasmtime::Engine`: the shared compilation and execution environment.
#[verifier::external_type_specification]
#[verifier::external_body]
pub struct ExEngine(wasmtime::Engine);

/// `wasmtime::Config`: the settings an engine is created from.
#[verifier::external_type_specification]
#[verifier::external_body]
pub struct ExConfig(wasmtime::Config);

/// `wasmtime::Module`: a compiled WebAssembly module.
#[verifier::external_type_specification]
#[verifier::external_body]
pub struct ExModule(wasmtime::Module);

/// `wasmtime::Store`: the state of one isolated run.
#[verifier::external_type_specification]
#[verifier::external_body]
#[verifier::reject_recursive_types(T)]
pub struct ExStore<T: 'static>(wasmtime::Store<T>);

/// `wasmtime::Linker`: the host functions offered to a module.
#[verifier::external_type_specification]
#[verifier::external_body]
#[verifier::reject_recursive_types(T)]
pub struct ExLinker<T>(wasmtime::Linker<T>);

/// `wasmtime::Instance`: an instantiated module.
#[verifier::external_type_specification]
#[verifier::external_body]
pub struct ExInstance(wasmtime::Instance);

/// `wasmtime::Func`: a function of an instance.
#[verifier::external_type_specification]
#[verifier::external_body]
pub struct ExFunc(wasmtime::Func);

/// `anyhow::Error`: the error type of the engine's fallible calls.
#[verifier::external_type_specification]
#[verifier::external_body]
pub struct ExError(anyhow::Error);

/// `wasmtime_wasi::WasiCtxBuilder`: collects the settings of a WASI context.
#[verifier::external_type_specification]
#[verifier::external_body]
pub struct ExWasiCtxBuilder(wasmtime_wasi::WasiCtxBuilder);

/// `wasmtime_wasi::preview1::WasiP1Ctx`: the WASI state of one run.
#[verifier::external_type_specification]
#[verifier::external_body]
pub struct ExWasiP1Ctx(wasmtime_wasi::preview1::WasiP1Ctx);

/// `wasmtime_wasi::p2::pipe::MemoryInputPipe`: an input stream over bytes
/// held in memory.
#[verifier::external_type_specification]
#[verifier::external_body]
pub struct ExMemoryInputPipe(wasmtime_wasi::p2::pipe::MemoryInputPipe);

/// `wasmtime_wasi::p2::pipe::MemoryOutputPipe`: an output stream that
/// collects bytes in memory, up to a capacity.
#[verifier::external_type_specification]
#[verifier::external_body]
pub struct ExMemoryOutputPipe(wasmtime_wasi::p2::pipe::MemoryOutputPipe);

/// `std::time::Instant`: a reading of the monotonic clock.
#[verifier::external_type_specification]
#[verifier::external_body]
pub struct ExInstant(std::time::Instant);

/// What `str::to_lowercase` returns for a text: its lowercase form under the
/// Unicode case mapping.
pub uninterp spec fn lowercase(s: Seq<char>) -> Seq<char>;

/// What `String::from_utf8_lossy` returns for a byte string: the decoded
/// text, with each invalid sequence replaced by U+FFFD.
pub uninterp spec fn utf8_lossy(bytes: Seq<u8>) -> Seq<char>;

/// Calls `str::to_lowercase`. The result is the lowercase form of `s`, a
/// function of `s` alone.
#[verifier::external_body]
pub(crate) fn to_lowercase(s: &str) -> (r: String)
    ensures
        r@ == lowercase(s@),
{
    s.to_lowercase()
}

/// Calls `String::from_utf8_lossy`. The result is the lossy decoding of
/// `bytes`, a function of `bytes` alone.
#[verifier::external_body]
pub(crate) fn text_from_utf8_lossy(bytes: &[u8]) -> (r: String)
    ensures
        r@ == utf8_lossy(bytes@),
{
    String::from_utf8_lossy(bytes).into_owned()
}

/// Calls `Instant::now`. Nothing is claimed of the reading.
#[verifier::external_body]
pub(crate) fn instant_now() -> std::time::Instant {
    std::time::Instant::now()
}

/// Calls `Instant::elapsed`. Nothing is claimed of the duration.
#[verifier::external_body]
pub(crate) fn instant_elapsed(start: &std::time::Instant) -> core::time::Duration {
    start.elapsed()
}

/// Calls `Duration::as_millis`. Nothing is claimed of the number.
#[verifier::external_body]
pub(crate) fn duration_millis(duration: &core::time::Duration) -> u128 {
    duration.as_millis()
}

/// Calls `Config::new`: the default settings.
#[verifier::external_body]
pub(crate) fn config_new() -> wasmtime::Config {
    wasmtime::Config::new()
}

/// Calls `Config::consume_fuel(true)`: code compiled under these settings
/// consumes fuel and traps when it runs out.
#[verifier::external_body]
pub(crate) fn config_consume_fuel(config: &mut wasmtime::Config) {
    config.consume_fuel(true);
}

/// Calls `Config::epoch_interruption(true)`: code compiled under these
/// settings traps once the engine's epoch passes the store's deadline.
#[verifier::external_body]
pub(crate) fn config_epoch_interruption(config: &mut wasmtime::Config) {
    config.epoch_interruption(true);
}

/// Calls `Config::memory_reservation`: the address space, in bytes, that
/// the engine sets aside for each linear memory when it is created.
#[verifier::external_body]
pub(crate) fn config_memory_reservation(config: &mut wasmtime::Config, bytes: u64) {
    config.memory_reservation(bytes);
}

/// Calls `Config::memory_reservation_for_growth`: the address space, in
/// bytes, that the engine sets aside beyond a linear memory's size when it
/// has to move the memory to grow it.
#[verifier::external_body]
pub(crate) fn config_memory_reservation_for_growth(config: &mut wasmtime::Config, bytes: u64) {
    config.memory_reservation_for_growth(bytes);
}

/// Calls `Config::memory_guard_size`: the size, in bytes, of the
/// inaccessible region that the engine places after each linear memory.
#[verifier::external_body]
pub(crate) fn config_memory_guard_size(config: &mut wasmtime::Config, bytes: u64) {
    config.memory_guard_size(bytes);
}

/// Calls `Engine::new`. It may fail; nothing is claimed of the outcome.
#[verifier::external_body]
pub(crate) fn engine_new(config: &wasmtime::Config) -> Result<wasmtime::Engine, anyhow::Error> {
    wasmtime::Engine::new(config)
}

/// Calls `Engine::increment_epoch`, an atomic increment of the engine's
/// epoch counter.
#[verifier::external_body]
pub(crate) fn engine_increment_epoch(engine: &wasmtime::Engine) {
    engine.increment_epoch();
}

/// Calls `Module::new` on a module in binary or text form. It fails when
/// the module does not decode or validate; nothing is claimed of the outcome.
#[verifier::external_body]
pub(crate) fn module_new(engine: &wasmtime::Engine, bytes: &[u8]) -> Result<
    wasmtime::Module,
    anyhow::Error,
> {
    wasmtime::Module::new(engine, bytes)
}

/// Calls `Linker::new`: a linker with nothing defined in it.
#[verifier::external_body]
pub(crate) fn linker_new(engine: &wasmtime::Engine) -> wasmtime::Linker<HostState> {
    wasmtime::Linker::new(engine)
}

/// Calls `wasmtime_wasi::preview1::add_to_linker_sync`, which defines the
/// WASI functions in `linker`; they work on the `wasi` field of the store's
/// state. It may fail; nothing is claimed of the outcome.
#[verifier::external_body]
pub(crate) fn link_wasi(linker: &mut wasmtime::Linker<HostState>) -> Result<(), anyhow::Error> {
    wasmtime_wasi::preview1::add_to_linker_sync(linker, |state: &mut HostState| &mut state.wasi)
}

/// Calls `Store::new`: a fresh store that owns `state`.
#[verifier::external_body]
pub(crate) fn store_new(engine: &wasmtime::Engine, state: HostState) -> wasmtime::Store<
    HostState,
> {
    wasmtime::Store::new(engine, state)
}

/// Calls `Store::limiter`, naming the `meter` field of the store's state as
/// the limiter that the engine consults from now on.
#[verifier::external_body]
pub(crate) fn store_limiter(store: &mut wasmtime::Store<HostState>) {
    store.limiter(|state: &mut HostState| &mut state.meter);
}

/// Calls `Store::set_fuel`. It fails when the engine was not configured to
/// consume fuel; nothing is claimed of the outcome.
#[verifier::external_body]
pub(crate) fn store_set_fuel(store: &mut wasmtime::Store<HostState>, fuel: u64) -> Result<
    (),
    anyhow::Error,
> {
    store.set_fuel(fuel)
}

/// The largest deadline, in ticks, that the host asks for.
pub const MAX_DEADLINE_TICKS: u64 = 0x2000_0000_0000_0000;

/// Calls `Store::set_epoch_deadline`, which sets the deadline to the
/// engine's current epoch plus `ticks`. The engine adds the two as `u64`;
/// with `ticks` bounded as required the sum fits unless the engine has
/// already been ticked more than 2^63 times.
#[verifier::external_body]
pub(crate) fn store_set_epoch_deadline(store: &mut wasmtime::Store<HostState>, ticks: u64)
    requires
        ticks <= MAX_DEADLINE_TICKS,
{
    store.set_epoch_deadline(ticks);
}

/// Calls `Store::data`: the state the store owns.
#[verifier::external_body]
pub(crate) fn store_data(store: &wasmtime::Store<HostState>) -> &HostState {
    store.data()
}

/// A store together with the instance that was instantiated in it. The two
/// are put together where the instance is made and are never handed out
/// apart, so a function is only ever looked up in the store that owns the
/// instance.
pub struct Started {
    store: wasmtime::Store<HostState>,
    instance: wasmtime::Instance,
}

/// A store together with a function of the instance that lives in it. The
/// two are put together where the function is looked up and are never handed
/// out apart, so a function is only ever called in the store that owns it.
pub struct Entered {
    store: wasmtime::Store<HostState>,
    entry: wasmtime::Func,
}

/// Calls `Linker::instantiate` in `store`. On success the store comes back
/// together with the new instance; on failure it comes back with the error.
/// The module's start function runs during instantiation, so the call may
/// also trap; nothing is claimed of the outcome.
#[verifier::external_body]
pub(crate) fn linker_instantiate(
    linker: &wasmtime::Linker<HostState>,
    store: wasmtime::Store<HostState>,
    module: &wasmtime::Module,
) -> Result<Started, (wasmtime::Store<HostState>, anyhow::Error)> {
    let mut store = store;
    match linker.instantiate(&mut store, module) {
        Ok(instance) => Ok(Started { store, instance }),
        Err(error) => Err((store, error)),
    }
}

/// Calls `Instance::get_func` in the store that owns the instance. If the
/// instance exports a function of that name, the store comes back together
/// with it; otherwise the store comes back alone.
#[verifier::external_body]
pub(crate) fn started_entry(started: Started, name: &str) -> Result<
    Entered,
    wasmtime::Store<HostState>,
> {
    let mut started = started;
    match started.instance.get_func(&mut started.store, name) {
        Some(entry) => Ok(Entered { store: started.store, entry }),
        None => Err(started.store),
    }
}

/// Calls `Func::call`, with no arguments and no results, in the store that
/// owns the function, and hands the store back with the outcome. The engine
/// panics on a store with asynchronous support; the host never configures
/// it. The call fails when the function traps, exits or has another type;
/// nothing is claimed of the outcome.
#[verifier::external_body]
pub(crate) fn entered_call(entered: Entered) -> (wasmtime::Store<HostState>, Result<
    (),
    anyhow::Error,
>) {
    let mut entered = entered;
    let outcome = entered.entry.call(&mut entered.store, &[], &mut []);
    (entered.store, outcome)
}

/// Calls `Error::downcast_ref` for `wasmtime::Trap` and tells the trap
/// codes apart. Nothing is claimed of the outcome.
#[verifier::external_body]
pub(crate) fn error_trap(error: &anyhow::Error) -> Option<TrapKind> {
    match error.downcast_ref::<wasmtime::Trap>() {
        Some(wasmtime::Trap::OutOfFuel) => Some(TrapKind::OutOfFuel),
        Some(wasmtime::Trap::Interrupt) => Some(TrapKind::Interrupt),
        Some(_) => Some(TrapKind::Other),
        None => None,
    }
}

/// Calls `Error::downcast_ref` for `wasmtime_wasi::I32Exit`: the status the
/// program passed to `proc_exit`, if the error is such an exit. Nothing is
/// claimed of the outcome.
#[verifier::external_body]
pub(crate) fn error_exit_status(error: &anyhow::Error) -> Option<i32> {
    match error.downcast_ref::<wasmtime_wasi::I32Exit>() {
        Some(exit) => Some(exit.0),
        None => None,
    }
}

/// Renders an `anyhow::Error` with its chain of causes. Nothing is claimed
/// of the text.
#[verifier::external_body]
pub(crate) fn error_message(error: &anyhow::Error) -> String {
    format!("{error:#}")
}

/// Calls `WasiCtxBuilder::new`: stdin closed, output discarded, no
/// arguments, no environment, no preopened directories.
#[verifier::external_body]
pub(crate) fn wasi_builder() -> wasmtime_wasi::WasiCtxBuilder {
    wasmtime_wasi::WasiCtxBuilder::new()
}

/// Calls `MemoryInputPipe::new` on the bytes of `input`.
#[verifier::external_body]
pub(crate) fn input_pipe(input: &str) -> wasmtime_wasi::p2::pipe::MemoryInputPipe {
    wasmtime_wasi::p2::pipe::MemoryInputPipe::new(input.to_owned())
}

/// Calls `MemoryOutputPipe::new`: an empty pipe that takes up to
/// `capacity` bytes.
#[verifier::external_body]
pub(crate) fn output_pipe(capacity: usize) -> wasmtime_wasi::p2::pipe::MemoryOutputPipe {
    wasmtime_wasi::p2::pipe::MemoryOutputPipe::new(capacity)
}

/// Calls `WasiCtxBuilder::stdin`.
#[verifier::external_body]
pub(crate) fn wasi_stdin(
    builder: &mut wasmtime_wasi::WasiCtxBuilder,
    pipe: wasmtime_wasi::p2::pipe::MemoryInputPipe,
) {
    builder.stdin(pipe);
}

/// Calls `WasiCtxBuilder::stdout` with a handle to `pipe`.
#[verifier::external_body]
pub(crate) fn wasi_stdout(
    builder: &mut wasmtime_wasi::WasiCtxBuilder,
    pipe: &wasmtime_wasi::p2::pipe::MemoryOutputPipe,
) {
    builder.stdout(pipe.clone());
}

/// Calls `WasiCtxBuilder::stderr` with a handle to `pipe`.
#[verifier::external_body]
pub(crate) fn wasi_stderr(
    builder: &mut wasmtime_wasi::WasiCtxBuilder,
    pipe: &wasmtime_wasi::p2::pipe::MemoryOutputPipe,
) {
    builder.stderr(pipe.clone());
}

/// Calls `WasiCtxBuilder::arg`, which appends one program argument.
#[verifier::external_body]
pub(crate) fn wasi_arg(builder: &mut wasmtime_wasi::WasiCtxBuilder, arg: &str) {
    builder.arg(arg);
}

/// Calls `WasiCtxBuilder::build_p1`. The builder panics when asked to build
/// twice; it is taken by value here, so each builder builds once.
#[verifier::external_body]
pub(crate) fn wasi_build(builder: wasmtime_wasi::WasiCtxBuilder)
    -> wasmtime_wasi::preview1::WasiP1Ctx {
    let mut builder = builder;
    builder.build_p1()
}

/// Calls `MemoryOutputPipe::contents`: the bytes written so far. Nothing is
/// claimed of them.
#[verifier::external_body]
pub(crate) fn pipe_contents(pipe: &wasmtime_wasi::p2::pipe::MemoryOutputPipe) -> Vec<u8> {
    pipe.contents().to_vec()
}

} // verus!
