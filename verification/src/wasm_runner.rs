//! The sandbox host: a registry of language adapters and the bounded,
//! isolated execution of one program on one input.

use crate::attempt::{Attempt, Failure, MeterReading, observe, plan_run, texts};
use crate::error::{ConfigurationError, SandboxError};
use crate::meter::{MemoryMeter, lemma_peak_within_limit};
use crate::model::{ExecutionResult, Limits, TerminationReason};
use crate::outcome::report;
use crate::wasm::{
    config_consume_fuel, config_epoch_interruption, config_memory_guard_size,
    config_memory_reservation, config_memory_reservation_for_growth, config_new, duration_millis,
    engine_increment_epoch, engine_new, entered_call, error_exit_status, error_message,
    error_trap, input_pipe, instant_elapsed, instant_now, link_wasi, linker_instantiate,
    linker_new, lowercase, module_new, output_pipe, pipe_contents, started_entry, store_data,
    store_limiter, store_new, store_set_epoch_deadline, store_set_fuel, text_from_utf8_lossy,
    to_lowercase, wasi_arg, wasi_build, wasi_builder, wasi_stderr, wasi_stdin, wasi_stdout,
};
use vstd::prelude::*;

verus! {

/// The most bytes a run may write to each of its output streams. A write
/// beyond it fails inside the program.
pub const OUTPUT_LIMIT_BYTES: usize = 16_777_216;

/// The state that a store owns during one run.
pub struct HostState {
    pub(crate) wasi: wasmtime_wasi::preview1::WasiP1Ctx,
    pub(crate) meter: MemoryMeter,
}

/// How one language is run: the runtime module that hosts its programs and
/// the convention by which a program is handed to it and its failure to
/// compile is told apart.
struct LanguageAdapter {
    id: String,
    runtime: Option<wasmtime::Module>,
    arguments: Vec<String>,
    compile_failure_status: Option<i32>,
}

/// What the registry holds for one language.
pub struct AdapterView {
    /// Whether a runtime module is loaded.
    pub has_runtime: bool,
    /// The arguments that come before the program's source.
    pub arguments: Seq<Seq<char>>,
    /// The exit status that stands for a source that did not compile.
    pub compile_failure_status: Option<i32>,
}

/// Runs programs inside a WebAssembly sandbox, one fresh instance per run.
pub struct WasmRunner {
    engine: wasmtime::Engine,
    linker: wasmtime::Linker<HostState>,
    adapters: Vec<LanguageAdapter>,
}

spec fn adapter_view(adapter: LanguageAdapter) -> AdapterView {
    AdapterView {
        has_runtime: adapter.runtime is Some,
        arguments: texts(adapter.arguments@),
        compile_failure_status: adapter.compile_failure_status,
    }
}

spec fn distinct_ids(adapters: Seq<LanguageAdapter>) -> bool {
    forall|i: int, j: int|
        0 <= i < j < adapters.len() ==> (#[trigger] adapters[i]).id@ != (#[trigger] adapters[j]).id@
}

spec fn holds(adapters: Seq<LanguageAdapter>, id: Seq<char>) -> bool {
    exists|i: int| 0 <= i < adapters.len() && (#[trigger] adapters[i]).id@ == id
}

spec fn lookup(adapters: Seq<LanguageAdapter>, id: Seq<char>) -> Option<AdapterView> {
    if holds(adapters, id) {
        let at = choose|i: int| 0 <= i < adapters.len() && (#[trigger] adapters[i]).id@ == id;
        Some(adapter_view(adapters[at]))
    } else {
        None
    }
}

/// With distinct ids, the adapter found under the id of the one at `at` is
/// that one.
proof fn lemma_lookup_at(adapters: Seq<LanguageAdapter>, at: int)
    requires
        distinct_ids(adapters),
        0 <= at < adapters.len(),
    ensures
        holds(adapters, adapters[at].id@),
        lookup(adapters, adapters[at].id@) == Some(adapter_view(adapters[at])),
{
    let id = adapters[at].id@;
    let found = choose|i: int| 0 <= i < adapters.len() && (#[trigger] adapters[i]).id@ == id;
    if found < at {
        assert(adapters[found].id@ != adapters[at].id@);
    } else if at < found {
        assert(adapters[at].id@ != adapters[found].id@);
    }
}

/// Putting an adapter in place of the one with the same id, or behind the
/// others where its id is new, keeps the ids distinct, makes it the
/// adapter found under its id and leaves what is found under every other id
/// as it was.
proof fn lemma_installed(before: Seq<LanguageAdapter>, after: Seq<LanguageAdapter>, at: int)
    requires
        distinct_ids(before),
        0 <= at < after.len(),
        (after.len() == before.len() && before[at].id@ == after[at].id@) || (after.len()
            == before.len() + 1 && at == before.len() && !holds(before, after[at].id@)),
        forall|j: int| 0 <= j < before.len() && j != at ==> #[trigger] after[j] == before[j],
    ensures
        distinct_ids(after),
        lookup(after, after[at].id@) == Some(adapter_view(after[at])),
        forall|id: Seq<char>| id != after[at].id@ ==> #[trigger] lookup(after, id) == lookup(before, id),
{
    let key = after[at].id@;
    assert forall|i: int, j: int| 0 <= i < j < after.len() implies (#[trigger] after[i]).id@ != (
    #[trigger] after[j]).id@ by {
        if i != at && j != at {
            assert(after[i] == before[i] && after[j] == before[j]);
        } else {
            let other = if i == at {
                j
            } else {
                i
            };
            assert(after[other] == before[other]);
            if after.len() == before.len() {
                assert(before[other].id@ != before[at].id@);
            }
        }
    }
    lemma_lookup_at(after, at);
    assert forall|id: Seq<char>| id != key implies #[trigger] lookup(after, id) == lookup(
        before,
        id,
    ) by {
        if holds(before, id) {
            let w = choose|i: int| 0 <= i < before.len() && (#[trigger] before[i]).id@ == id;
            assert(after[w] == before[w]);
            lemma_lookup_at(before, w);
            lemma_lookup_at(after, w);
        } else if holds(after, id) {
            let w = choose|i: int| 0 <= i < after.len() && (#[trigger] after[i]).id@ == id;
            assert(after[w] == before[w]);
        }
    }
}

/// `millis` as a `u64`, held at `u64::MAX` when it does not fit.
fn clamp_millis(millis: u128) -> (ms: u64)
    ensures
        ms == if millis > u64::MAX {
            u64::MAX
        } else {
            millis as u64
        },
{
    if millis > u64::MAX as u128 {
        u64::MAX
    } else {
        millis as u64
    }
}

impl WasmRunner {
    #[verifier::type_invariant]
    spec fn ids_are_distinct(self) -> bool {
        distinct_ids(self.adapters@)
    }

    /// What is registered under `id`, if anything.
    pub closed spec fn adapter(&self, id: Seq<char>) -> Option<AdapterView> {
        lookup(self.adapters@, id)
    }

    /// Whether an adapter is registered under `id`.
    pub open spec fn registered(&self, id: Seq<char>) -> bool {
        self.adapter(id) is Some
    }

    /// Whether a runtime module is loaded for `id`.
    pub open spec fn has_runtime(&self, id: Seq<char>) -> bool {
        self.adapter(id) matches Some(adapter) && adapter.has_runtime
    }

    /// The arguments that come before the source of a program in `id`.
    pub open spec fn arguments_of(&self, id: Seq<char>) -> Seq<Seq<char>> {
        match self.adapter(id) {
            Some(adapter) => adapter.arguments,
            None => Seq::empty(),
        }
    }

    /// The exit status that stands for a source in `id` that did not
    /// compile.
    pub open spec fn compile_failure_status_of(&self, id: Seq<char>) -> Option<i32> {
        match self.adapter(id) {
            Some(adapter) => adapter.compile_failure_status,
            None => None,
        }
    }

    /// What [`WasmRunner::run_registered`] may return for the adapter key
    /// `key`: a configuration error exactly when no runtime is loaded under
    /// the key, naming the language as the caller wrote it; otherwise either
    /// a report, or a compilation or host error. In a report, a run said to
    /// have completed stayed within its wall-clock budget, and the memory
    /// figure is never above the ceiling.
    pub open spec fn run_allowed(
        &self,
        key: Seq<char>,
        language: Seq<char>,
        limits: Limits,
        r: Result<ExecutionResult, SandboxError>,
    ) -> bool {
        &&& !self.registered(key) ==> (r matches Err(
            SandboxError::Configuration(ConfigurationError::UnknownLanguage(l)),
        ) && l@ == language)
        &&& self.registered(key) && !self.has_runtime(key) ==> (r matches Err(
            SandboxError::Configuration(ConfigurationError::MissingRuntime(l)),
        ) && l@ == language)
        &&& self.has_runtime(key) ==> !(r matches Err(SandboxError::Configuration(_)))
        &&& r matches Ok(report) ==> {
            &&& report.termination == TerminationReason::Completed ==> report.execution_time_ms
                <= limits.wall_clock_ms
            &&& report.memory_used_mb <= limits.memory_mb
        }
    }

    /// A host with a fuel-metering engine and two known languages, `python`
    /// and `go`, for which no runtime module is loaded yet.
    pub fn new() -> (r: Result<Self, SandboxError>)
        ensures
            r matches Ok(runner) ==> forall|id: Seq<char>| #[trigger]
                runner.adapter(id) == if id == "python"@ || id == "go"@ {
                    Some(
                        AdapterView {
                            has_runtime: false,
                            arguments: Seq::empty(),
                            compile_failure_status: None,
                        },
                    )
                } else {
                    None
                },
            r matches Err(e) ==> e is Host,
    {
        let mut config = config_new();
        config_consume_fuel(&mut config);
        config_epoch_interruption(&mut config);
        // A run's memory is capped by its own ceiling, so no address space is
        // set aside beyond what a memory actually holds.
        config_memory_reservation(&mut config, 0);
        config_memory_reservation_for_growth(&mut config, 0);
        config_memory_guard_size(&mut config, 0);
        let engine = match engine_new(&config) {
            Ok(engine) => engine,
            Err(e) => {
                return Err(SandboxError::Host(error_message(&e)));
            },
        };
        let mut linker = linker_new(&engine);
        match link_wasi(&mut linker) {
            Ok(()) => {},
            Err(e) => {
                return Err(SandboxError::Host(error_message(&e)));
            },
        }
        let mut adapters: Vec<LanguageAdapter> = Vec::new();
        adapters.push(
            LanguageAdapter {
                id: "python".to_owned(),
                runtime: None,
                arguments: Vec::new(),
                compile_failure_status: None,
            },
        );
        adapters.push(
            LanguageAdapter {
                id: "go".to_owned(),
                runtime: None,
                arguments: Vec::new(),
                compile_failure_status: None,
            },
        );
        proof {
            reveal_strlit("python");
            reveal_strlit("go");
            assert("python"@.len() != "go"@.len());
            let held = adapters@;
            assert(held[0].id@ == "python"@ && held[1].id@ == "go"@);
            assert(distinct_ids(held));
            lemma_lookup_at(held, 0);
            lemma_lookup_at(held, 1);
            assert(texts(held[0].arguments@) =~= Seq::empty());
            assert(texts(held[1].arguments@) =~= Seq::empty());
        }
        let runner = WasmRunner { engine, linker, adapters };
        Ok(runner)
    }

    /// Where the adapter with id `key` stands in the registry.
    fn find(&self, key: &str) -> (found: Option<usize>)
        ensures
            match found {
                Some(i) => i < self.adapters@.len() && self.adapters@[i as int].id@ == key@,
                None => !holds(self.adapters@, key@),
            },
    {
        let wanted = key.to_owned();
        let n = self.adapters.len();
        let mut i: usize = 0;
        while i < n
            invariant
                n == self.adapters@.len(),
                wanted@ == key@,
                i <= n,
                forall|j: int| 0 <= j < i ==> (#[trigger] self.adapters@[j]).id@ != key@,
            decreases n - i,
        {
            if self.adapters[i].id == wanted {
                return Some(i);
            }
            i = i + 1;
        }
        None
    }

    /// Whether an adapter is registered under the key `key`.
    pub fn is_registered(&self, key: &str) -> (b: bool)
        ensures
            b == self.registered(key@),
    {
        proof {
            use_type_invariant(self);
        }
        match self.find(key) {
            Some(i) => {
                proof {
                    lemma_lookup_at(self.adapters@, i as int);
                }
                true
            },
            None => false,
        }
    }

    /// Whether a runtime module is loaded under the key `key`.
    pub fn is_runnable(&self, key: &str) -> (b: bool)
        ensures
            b == self.has_runtime(key@),
    {
        proof {
            use_type_invariant(self);
        }
        match self.find(key) {
            Some(i) => {
                proof {
                    lemma_lookup_at(self.adapters@, i as int);
                }
                self.adapters[i].runtime.is_some()
            },
            None => false,
        }
    }

    /// Whether programs in `language` can be run. Language ids are matched
    /// without regard to case.
    pub fn supports(&self, language: &str) -> (b: bool)
        ensures
            b == self.has_runtime(lowercase(language@)),
    {
        let key = to_lowercase(language);
        self.is_runnable(key.as_str())
    }

    /// Registers `language` with the runtime module given in binary or text
    /// form, replacing what was registered under the same id. See
    /// [`WasmRunner::register_adapter`]; the adapter's key is the lowercase
    /// form of `language`.
    pub fn register_language(
        &mut self,
        language: &str,
        runtime: &[u8],
        arguments: Vec<String>,
        compile_failure_status: Option<i32>,
    ) -> (r: Result<(), SandboxError>)
        ensures
            r is Ok ==> final(self).adapter(lowercase(language@)) == Some(
                AdapterView {
                    has_runtime: true,
                    arguments: texts(arguments@),
                    compile_failure_status,
                },
            ),
            r is Ok ==> forall|id: Seq<char>|
                id != lowercase(language@) ==> #[trigger] final(self).adapter(id) == old(
                    self,
                ).adapter(id),
            r matches Err(e) ==> e matches SandboxError::Configuration(
                ConfigurationError::InvalidRuntime(_),
            ),
            r is Err ==> forall|id: Seq<char>| #[trigger]
                final(self).adapter(id) == old(self).adapter(id),
    {
        let key = to_lowercase(language);
        self.register_adapter(key, runtime, arguments, compile_failure_status)
    }

    /// Registers an adapter under `key`. A program is started by entering the
    /// runtime at `_start` with `arguments` followed by the program's source
    /// as its argument list and the test input on its standard input. If
    /// `compile_failure_status` is given, a program that exits with that
    /// status is taken not to have compiled. The engine must accept the
    /// runtime module; if it does, the adapter is installed as
    /// [`WasmRunner::install`] says, and if it does not, the registry stays as
    /// it was.
    pub fn register_adapter(
        &mut self,
        key: String,
        runtime: &[u8],
        arguments: Vec<String>,
        compile_failure_status: Option<i32>,
    ) -> (r: Result<(), SandboxError>)
        ensures
            r is Ok ==> final(self).adapter(key@) == Some(
                AdapterView {
                    has_runtime: true,
                    arguments: texts(arguments@),
                    compile_failure_status,
                },
            ),
            r is Ok ==> forall|id: Seq<char>|
                id != key@ ==> #[trigger] final(self).adapter(id) == old(self).adapter(id),
            r matches Err(e) ==> e matches SandboxError::Configuration(
                ConfigurationError::InvalidRuntime(_),
            ),
            r is Err ==> forall|id: Seq<char>| #[trigger]
                final(self).adapter(id) == old(self).adapter(id),
    {
        match module_new(&self.engine, runtime) {
            Ok(module) => {
                self.install(key, module, arguments, compile_failure_status);
                Ok(())
            },
            Err(e) => Err(
                SandboxError::Configuration(ConfigurationError::InvalidRuntime(error_message(&e))),
            ),
        }
    }

    /// Puts a compiled runtime module into the registry under `key`, with
    /// the arguments and the exit status given, in place of what was
    /// registered under that key. What is registered under other keys stays
    /// as it was.
    pub(crate) fn install(
        &mut self,
        key: String,
        module: wasmtime::Module,
        arguments: Vec<String>,
        compile_failure_status: Option<i32>,
    )
        ensures
            final(self).adapter(key@) == Some(
                AdapterView {
                    has_runtime: true,
                    arguments: texts(arguments@),
                    compile_failure_status,
                },
            ),
            forall|id: Seq<char>|
                id != key@ ==> #[trigger] final(self).adapter(id) == old(self).adapter(id),
    {
        proof {
            use_type_invariant(&*self);
        }
        let found = self.find(key.as_str());
        let ghost before = self.adapters@;
        let adapter = LanguageAdapter {
            id: key,
            runtime: Some(module),
            arguments,
            compile_failure_status,
        };
        let mut adapters: Vec<LanguageAdapter> = Vec::new();
        core::mem::swap(&mut self.adapters, &mut adapters);
        let ghost at = match found {
            Some(i) => i as int,
            None => before.len() as int,
        };
        match found {
            Some(i) => {
                adapters.set(i, adapter);
            },
            None => {
                adapters.push(adapter);
            },
        }
        proof {
            lemma_installed(before, adapters@, at);
        }
        self.adapters = adapters;
    }

    /// Checks that programs can be run under the key `key`; `language` is
    /// the id as the caller wrote it, used in the error.
    pub fn check_runnable(&self, key: &str, language: &str) -> (r: Result<
        (),
        ConfigurationError,
    >)
        ensures
            r is Ok <==> self.has_runtime(key@),
            !self.registered(key@) ==> (r matches Err(ConfigurationError::UnknownLanguage(l))
                && l@ == language@),
            self.registered(key@) && !self.has_runtime(key@) ==> (r matches Err(
                ConfigurationError::MissingRuntime(l),
            ) && l@ == language@),
    {
        proof {
            use_type_invariant(self);
        }
        match self.find(key) {
            Some(i) => {
                proof {
                    lemma_lookup_at(self.adapters@, i as int);
                }
                if self.adapters[i].runtime.is_some() {
                    Ok(())
                } else {
                    Err(ConfigurationError::MissingRuntime(language.to_owned()))
                }
            },
            None => Err(ConfigurationError::UnknownLanguage(language.to_owned())),
        }
    }

    /// Advances the host's clock by one tick. A run whose wall-clock budget
    /// has passed, counted in ticks since it began, is interrupted. A run
    /// holds the thread that started it, so the ticks have to come from
    /// another thread.
    pub fn tick(&self) {
        engine_increment_epoch(&self.engine);
    }

    /// Runs `code`, a program in `language`, on `input` under `limits`, in a
    /// sandbox of its own: no file system, no network, no environment, and
    /// nothing left over from other runs. Language ids are matched without
    /// regard to case. See [`WasmRunner::run_allowed`] for what comes back.
    ///
    /// Fuel bounds the run whatever the load of the machine. The wall-clock
    /// budget stops a run only where [`WasmRunner::tick`] is called while it
    /// is under way; without ticks a run that took longer than its budget is
    /// reported as such once it has ended.
    pub fn run_code(&self, code: &str, language: &str, input: &str, limits: &Limits) -> (r: Result<
        ExecutionResult,
        SandboxError,
    >)
        ensures
            self.run_allowed(lowercase(language@), language@, *limits, r),
    {
        let key = to_lowercase(language);
        self.run_registered(code, key.as_str(), language, input, limits)
    }

    /// Runs `code` with the adapter registered under `key`; `language` is
    /// the id as the caller wrote it, used in error texts.
    pub fn run_registered(
        &self,
        code: &str,
        key: &str,
        language: &str,
        input: &str,
        limits: &Limits,
    ) -> (r: Result<ExecutionResult, SandboxError>)
        ensures
            self.run_allowed(key@, language@, *limits, r),
    {
        proof {
            use_type_invariant(self);
        }
        let adapter = match self.find(key) {
            Some(i) => {
                proof {
                    lemma_lookup_at(self.adapters@, i as int);
                }
                &self.adapters[i]
            },
            None => {
                return Err(
                    SandboxError::Configuration(
                        ConfigurationError::UnknownLanguage(language.to_owned()),
                    ),
                );
            },
        };
        let runtime = match &adapter.runtime {
            Some(runtime) => runtime,
            None => {
                return Err(
                    SandboxError::Configuration(
                        ConfigurationError::MissingRuntime(language.to_owned()),
                    ),
                );
            },
        };
        self.run_module(
            runtime,
            &adapter.arguments,
            adapter.compile_failure_status,
            code,
            input,
            limits,
        )
    }

    /// Like [`WasmRunner::run_registered`], but a run that ends in a host
    /// error is tried once more, at once, before the error is handed on.
    pub fn run_retrying(
        &self,
        code: &str,
        key: &str,
        language: &str,
        input: &str,
        limits: &Limits,
    ) -> (r: Result<ExecutionResult, SandboxError>)
        ensures
            self.run_allowed(key@, language@, *limits, r),
    {
        match self.run_registered(code, key, language, input, limits) {
            Err(SandboxError::Host(_)) => self.run_registered(code, key, language, input, limits),
            other => other,
        }
    }

    /// One run of `runtime` on `code` and `input`. What the engine is given
    /// is laid down by [`plan_run`]; what is made of its answers is decided
    /// by [`observe`] and [`report`].
    fn run_module(
        &self,
        runtime: &wasmtime::Module,
        arguments: &Vec<String>,
        compile_failure_status: Option<i32>,
        code: &str,
        input: &str,
        limits: &Limits,
    ) -> (r: Result<ExecutionResult, SandboxError>)
        ensures
            !(r matches Err(SandboxError::Configuration(_))),
            r matches Ok(report) ==> {
                &&& report.termination == TerminationReason::Completed
                    ==> report.execution_time_ms <= limits.wall_clock_ms
                &&& report.memory_used_mb <= limits.memory_mb
            },
    {
        let plan = plan_run(limits, arguments, code);
        let stdout_pipe = output_pipe(OUTPUT_LIMIT_BYTES);
        let stderr_pipe = output_pipe(OUTPUT_LIMIT_BYTES);
        let mut builder = wasi_builder();
        wasi_stdin(&mut builder, input_pipe(input));
        wasi_stdout(&mut builder, &stdout_pipe);
        wasi_stderr(&mut builder, &stderr_pipe);
        let mut k: usize = 0;
        while k < plan.argv.len()
            invariant
                k <= plan.argv@.len(),
            decreases plan.argv@.len() - k,
        {
            wasi_arg(&mut builder, plan.argv[k].as_str());
            k = k + 1;
        }
        let meter = MemoryMeter::new(plan.memory_mb);
        let installed_bytes = meter.ceiling_bytes();
        let mut store = store_new(&self.engine, HostState { wasi: wasi_build(builder), meter });
        store_limiter(&mut store);
        let started = instant_now();
        let (store, attempt) = match store_set_fuel(&mut store, plan.fuel) {
            Err(e) => (store, Attempt::NotPrepared(error_message(&e))),
            Ok(()) => {
                store_set_epoch_deadline(&mut store, plan.deadline_ticks);
                match linker_instantiate(&self.linker, store, runtime) {
                    Err((store, e)) => (
                        store,
                        Attempt::NotInstantiated(
                            Failure {
                                trap: error_trap(&e),
                                exit_status: error_exit_status(&e),
                                message: error_message(&e),
                            },
                        ),
                    ),
                    Ok(instantiated) => match started_entry(instantiated, "_start") {
                        Err(store) => (store, Attempt::NoEntryPoint),
                        Ok(entered) => {
                            let (store, outcome) = entered_call(entered);
                            match outcome {
                                Ok(()) => (store, Attempt::Returned),
                                Err(e) => (
                                    store,
                                    Attempt::CallFailed(
                                        Failure {
                                            trap: error_trap(&e),
                                            exit_status: error_exit_status(&e),
                                            message: error_message(&e),
                                        },
                                    ),
                                ),
                            }
                        },
                    },
                }
            },
        };
        let elapsed_ms = clamp_millis(duration_millis(&instant_elapsed(&started)));
        let state = store_data(&store);
        let reading = MeterReading {
            installed_bytes,
            ceiling_bytes: state.meter.ceiling_bytes(),
            peak_bytes: state.meter.peak_bytes(),
            denied: state.meter.was_denied(),
        };
        let stdout_bytes = pipe_contents(&stdout_pipe);
        let stderr_bytes = pipe_contents(&stderr_pipe);
        let stdout = text_from_utf8_lossy(stdout_bytes.as_slice());
        let stderr = text_from_utf8_lossy(stderr_bytes.as_slice());
        match observe(attempt, reading, stdout, stderr, elapsed_ms) {
            Ok(seen) => {
                proof {
                    lemma_peak_within_limit(seen.peak_bytes, limits.memory_mb);
                }
                report(seen, compile_failure_status, limits)
            },
            Err(e) => Err(e),
        }
    }
}

} // verus!
