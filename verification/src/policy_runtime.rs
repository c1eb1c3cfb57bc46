//! Policy runtime: compiles artifacts and evaluates requests inside a
//! fresh, fuel-bounded sandbox per call.
//!
//! Every call into the execution engine goes through a trusted wrapper;
//! the orchestration, bounds checking, and error classification around
//! those calls is verified.

use vstd::prelude::*;
use std::io::Write;
use crate::error::{ConnectorError, ConnectorResult};
use crate::pattern::{contains_pattern, pattern_match};

verus! {

/// Fuel budget of one evaluation.
pub const FUEL_LIMIT: u64 = 1_000_000;

/// Default byte offset for request data when the guest exports no
/// `get_input_buffer`.
pub const INPUT_BUFFER_OFFSET: u64 = 1024;

/// Host-side state carried by each sandbox store.
pub struct HostState;

#[verifier::external_type_specification]
#[verifier::external_body]
pub struct ExConfig(wasmtime::Config);

#[verifier::external_type_specification]
#[verifier::external_body]
pub struct ExEngine(wasmtime::Engine);

#[verifier::external_type_specification]
#[verifier::external_body]
pub struct ExModule(wasmtime::Module);

#[verifier::external_type_specification]
#[verifier::external_body]
#[verifier::reject_recursive_types(T)]
pub struct ExStore<T: 'static>(wasmtime::Store<T>);

#[verifier::external_type_specification]
#[verifier::external_body]
#[verifier::reject_recursive_types(T)]
pub struct ExLinker<T>(wasmtime::Linker<T>);

#[verifier::external_type_specification]
#[verifier::external_body]
pub struct ExInstance(wasmtime::Instance);

#[verifier::external_type_specification]
#[verifier::external_body]
pub struct ExMemory(wasmtime::Memory);

/// Relies on wasmtime::Engine::clone: an engine clone is a cheap handle
/// to the same engine.
pub assume_specification[ <wasmtime::Engine as Clone>::clone ](e: &wasmtime::Engine) -> (r:
    wasmtime::Engine)
    ensures
        r == *e,
;

/// Relies on wasmtime::Module::clone: a module clone is a cheap handle to
/// the same compiled module.
pub assume_specification[ <wasmtime::Module as Clone>::clone ](m: &wasmtime::Module) -> (r:
    wasmtime::Module)
    ensures
        r == *m,
;

/// Relies on wasmtime::Config::new: a fresh default configuration.
#[verifier::external_body]
fn cfg_new() -> wasmtime::Config {
    wasmtime::Config::new()
}

/// Relies on wasmtime::Config::consume_fuel: turns fuel metering on or off.
#[verifier::external_body]
fn cfg_consume_fuel(c: &mut wasmtime::Config, enable: bool) {
    c.consume_fuel(enable);
}

/// Relies on wasmtime::Config::epoch_interruption: turns epoch-based
/// interruption on or off.
#[verifier::external_body]
fn cfg_epoch_interruption(c: &mut wasmtime::Config, enable: bool) {
    c.epoch_interruption(enable);
}

/// Relies on wasmtime::Config::max_wasm_stack: caps the guest call stack,
/// in bytes.
#[verifier::external_body]
fn cfg_max_wasm_stack(c: &mut wasmtime::Config, size: usize) {
    c.max_wasm_stack(size);
}

/// Relies on wasmtime::Config::memory_guaranteed_dense_image_size: caps the
/// dense pre-allocated memory image.
#[verifier::external_body]
fn cfg_memory_guaranteed_dense_image_size(c: &mut wasmtime::Config, size_in_bytes: u64) {
    c.memory_guaranteed_dense_image_size(size_in_bytes);
}

/// Relies on wasmtime::Config::memory_reservation: caps the virtual
/// address space reserved ahead for each linear memory, in bytes.
#[verifier::external_body]
fn cfg_memory_reservation(c: &mut wasmtime::Config, bytes: u64) {
    c.memory_reservation(bytes);
}

/// Relies on wasmtime::Config::memory_guard_size: sets the guard region
/// kept past each linear memory, in bytes.
#[verifier::external_body]
fn cfg_memory_guard_size(c: &mut wasmtime::Config, bytes: u64) {
    c.memory_guard_size(bytes);
}

/// Relies on wasmtime::Config::wasm_simd: enables or disables SIMD.
#[verifier::external_body]
fn cfg_wasm_simd(c: &mut wasmtime::Config, enable: bool) {
    c.wasm_simd(enable);
}

/// Relies on wasmtime::Config::wasm_bulk_memory: enables or disables bulk
/// memory operations.
#[verifier::external_body]
fn cfg_wasm_bulk_memory(c: &mut wasmtime::Config, enable: bool) {
    c.wasm_bulk_memory(enable);
}

/// Relies on wasmtime::Config::wasm_multi_value: enables or disables
/// multi-value returns.
#[verifier::external_body]
fn cfg_wasm_multi_value(c: &mut wasmtime::Config, enable: bool) {
    c.wasm_multi_value(enable);
}

/// Relies on wasmtime::Config::wasm_tail_call: enables or disables tail
/// calls.
#[verifier::external_body]
fn cfg_wasm_tail_call(c: &mut wasmtime::Config, enable: bool) {
    c.wasm_tail_call(enable);
}

/// Relies on wasmtime::Config::wasm_relaxed_simd: enables or disables
/// relaxed SIMD.
#[verifier::external_body]
fn cfg_wasm_relaxed_simd(c: &mut wasmtime::Config, enable: bool) {
    c.wasm_relaxed_simd(enable);
}

/// Relies on wasmtime::Config::cranelift_opt_level with
/// OptLevel::SpeedAndSize: tunes the compiler for speed and size.
#[verifier::external_body]
fn cfg_opt_level_speed_and_size(c: &mut wasmtime::Config) {
    c.cranelift_opt_level(wasmtime::OptLevel::SpeedAndSize);
}

/// Relies on wasmtime::Engine::new: builds an engine from a configuration,
/// or fails with a diagnostic.
#[verifier::external_body]
fn engine_new(c: &wasmtime::Config) -> (r: Result<wasmtime::Engine, String>) {
    wasmtime::Engine::new(c).map_err(|e| format!("{}", e))
}

/// Relies on wasmtime::Module::new: compiles and validates an artifact
/// against the engine's feature flags, or fails with a diagnostic.
#[verifier::external_body]
fn module_new(engine: &wasmtime::Engine, wasm_bytes: &[u8]) -> (r: Result<
    wasmtime::Module,
    String,
>) {
    wasmtime::Module::new(engine, wasm_bytes).map_err(|e| format!("{}", e))
}

/// Relies on wasmtime::Store::new: a fresh store bound to the engine.
#[verifier::external_body]
fn store_new(engine: &wasmtime::Engine) -> wasmtime::Store<HostState> {
    wasmtime::Store::new(engine, HostState)
}

/// Relies on wasmtime::Store::set_fuel: sets the store's remaining fuel,
/// failing with a diagnostic when fuel metering is not enabled.
#[verifier::external_body]
fn store_set_fuel(store: &mut wasmtime::Store<HostState>, fuel: u64) -> (r: Result<(), String>) {
    store.set_fuel(fuel).map_err(|e| format!("{}", e))
}

/// Relies on wasmtime::Linker::new: a fresh linker bound to the engine.
#[verifier::external_body]
fn linker_new(engine: &wasmtime::Engine) -> wasmtime::Linker<HostState> {
    wasmtime::Linker::new(engine)
}

/// Relies on wasmtime::Linker::func_wrap, wasmtime::Caller::get_export and
/// wasmtime::Memory::data: registers the host import `host.log`. The
/// closure clamps the guest window with the verified `log_window`, decodes
/// it as UTF-8 and prints it; invalid UTF-8 is dropped silently.
#[verifier::external_body]
fn linker_register_log(linker: &mut wasmtime::Linker<HostState>) -> (r: Result<(), String>) {
    let result = linker.func_wrap(
        "host",
        "log",
        |mut caller: wasmtime::Caller<'_, HostState>, ptr: i32, len: i32| {
            if let Some(wasmtime::Extern::Memory(mem)) = caller.get_export("memory") {
                let data = mem.data(&caller);
                if let Some((start, end)) = log_window(data.len(), ptr, len) {
                    if let Ok(msg) = std::str::from_utf8(&data[start..end]) {
                        let _ = writeln!(std::io::stdout(), "[WASM] {}", msg);
                    }
                }
            }
        },
    );
    result.map(|_| ()).map_err(|e| format!("{}", e))
}

/// Relies on wasmtime::Linker::instantiate: allocates a fresh instance of
/// the module with its own linear memory, or fails with a diagnostic.
#[verifier::external_body]
fn linker_instantiate(
    linker: &wasmtime::Linker<HostState>,
    store: &mut wasmtime::Store<HostState>,
    module: &wasmtime::Module,
) -> (r: Result<wasmtime::Instance, String>) {
    linker.instantiate(&mut *store, module).map_err(|e| format!("{}", e))
}

/// Relies on wasmtime::Instance::get_memory: the exported linear memory of
/// that name, if the instance has one.
#[verifier::external_body]
fn instance_get_memory(
    store: &mut wasmtime::Store<HostState>,
    instance: &wasmtime::Instance,
    name: &str,
) -> (r: Option<wasmtime::Memory>) {
    instance.get_memory(&mut *store, name)
}

/// Relies on wasmtime::Memory::data_size: the current size of the linear
/// memory, in bytes.
#[verifier::external_body]
fn memory_data_size(
    store: &wasmtime::Store<HostState>,
    memory: &wasmtime::Memory,
) -> usize {
    memory.data_size(store)
}

/// Relies on wasmtime::Memory::write: copies the bytes into linear memory
/// at the offset, reporting success; fails only when the range is out of
/// bounds.
#[verifier::external_body]
fn memory_write(
    store: &mut wasmtime::Store<HostState>,
    memory: &wasmtime::Memory,
    offset: usize,
    data: &[u8],
) -> (r: bool) {
    memory.write(&mut *store, offset, data).is_ok()
}

/// Relies on wasmtime::Instance::get_typed_func and
/// wasmtime::TypedFunc::call for the optional guest export
/// `get_input_buffer() -> i32`: `None` when the export is absent or has
/// another type, otherwise the call's result or the trap's diagnostic.
#[verifier::external_body]
fn probe_input_buffer(
    store: &mut wasmtime::Store<HostState>,
    instance: &wasmtime::Instance,
) -> (r: Option<Result<i32, String>>) {
    match instance.get_typed_func::<(), i32>(&mut *store, "get_input_buffer") {
        Err(_) => None,
        Ok(f) => Some(f.call(&mut *store, ()).map_err(|e| format!("{}", e))),
    }
}

/// What one call of the guest's evaluation entry produced.
pub enum GuestCallOutcome {
    /// The export is missing or has the wrong type; carries the diagnostic.
    Missing(String),
    /// The guest returned this verdict integer.
    Returned(i32),
    /// The call trapped; `fuel_trap` reports the engine's structured
    /// out-of-fuel trap, `message` the diagnostic text.
    Failed { fuel_trap: bool, message: String },
}

/// Relies on wasmtime::Instance::get_typed_func, wasmtime::TypedFunc::call
/// and wasmtime::Error::downcast_ref::<Trap> for the guest entry
/// `evaluate_access(i32, i32) -> i32`: reports a missing export, the
/// returned integer, or the trap with whether it was Trap::OutOfFuel.
#[verifier::external_body]
fn call_evaluate_access(
    store: &mut wasmtime::Store<HostState>,
    instance: &wasmtime::Instance,
    ptr: i32,
    len: i32,
) -> (r: GuestCallOutcome) {
    match instance.get_typed_func::<(i32, i32), i32>(&mut *store, "evaluate_access") {
        Err(e) => GuestCallOutcome::Missing(format!("{}", e)),
        Ok(f) => match f.call(&mut *store, (ptr, len)) {
            Ok(v) => GuestCallOutcome::Returned(v),
            Err(e) => {
                let fuel_trap = matches!(
                    e.downcast_ref::<wasmtime::Trap>(),
                    Some(wasmtime::Trap::OutOfFuel)
                );
                GuestCallOutcome::Failed { fuel_trap, message: format!("{}", e) }
            },
        },
    }
}

/// The bytes of `fuel`.
pub open spec fn fuel_needle() -> Seq<u8> {
    seq![102u8, 117u8, 101u8, 108u8]
}

/// The bytes of `Fuel`.
pub open spec fn fuel_cap_needle() -> Seq<u8> {
    seq![70u8, 117u8, 101u8, 108u8]
}

/// A diagnostic mentions fuel when its UTF-8 bytes contain `fuel` or
/// `Fuel`.
pub open spec fn spec_mentions_fuel(msg: Seq<char>) -> bool {
    contains_pattern(vstd::utf8::encode_utf8(msg), fuel_needle()) || contains_pattern(
        vstd::utf8::encode_utf8(msg),
        fuel_cap_needle(),
    )
}

/// Decides whether a trap diagnostic mentions fuel.
pub fn message_mentions_fuel(msg: &str) -> (r: bool)
    ensures
        r == spec_mentions_fuel(msg@),
{
    let bytes = msg.as_bytes();
    let lower: Vec<u8> = vec![102u8, 117u8, 101u8, 108u8];
    let upper: Vec<u8> = vec![70u8, 117u8, 101u8, 108u8];
    proof {
        assert(lower@ =~= fuel_needle());
        assert(upper@ =~= fuel_cap_needle());
    }
    pattern_match(bytes, lower.as_slice()) || pattern_match(bytes, upper.as_slice())
}

/// `r` is `Err(FunctionNotFound(..))` carrying the missing-export
/// diagnostic `m` behind the entry's name.
pub open spec fn classified_not_found(r: Result<bool, ConnectorError>, m: Seq<char>) -> bool {
    r matches Err(e) && e matches ConnectorError::FunctionNotFound(s) && s@ == "evaluate_access: "@
        + m
}

/// `r` classifies a trap with diagnostic `msg` as the responses report it:
/// `FuelExhausted` with the whole budget when the engine reported its
/// structured out-of-fuel trap or the diagnostic mentions fuel, and
/// `PolicyExecutionError` carrying the diagnostic otherwise.
pub open spec fn classified_failure(
    r: Result<bool, ConnectorError>,
    fuel_trap: bool,
    msg: Seq<char>,
) -> bool {
    if fuel_trap || spec_mentions_fuel(msg) {
        r == Err::<bool, ConnectorError>(ConnectorError::FuelExhausted { consumed: 1_000_000u64 })
    } else {
        r matches Err(e) && e matches ConnectorError::PolicyExecutionError(s) && s@ == msg
    }
}

/// Maps what the guest call produced to the verdict or the error, with the
/// verdict rule: allowed exactly when the guest returned non-zero.
pub fn classify_guest_outcome(outcome: GuestCallOutcome) -> (r: ConnectorResult<bool>)
    ensures
        match outcome {
            GuestCallOutcome::Missing(m) => classified_not_found(r, m@),
            GuestCallOutcome::Returned(v) => r == Ok::<bool, ConnectorError>(v != 0),
            GuestCallOutcome::Failed { fuel_trap, message } => classified_failure(
                r,
                fuel_trap,
                message@,
            ),
        },
{
    match outcome {
        GuestCallOutcome::Missing(m) => {
            let prefix = String::from_str("evaluate_access: ");
            Err(ConnectorError::FunctionNotFound(prefix.concat(m.as_str())))
        },
        GuestCallOutcome::Returned(v) => Ok(v != 0),
        GuestCallOutcome::Failed { fuel_trap, message } => {
            if fuel_trap || message_mentions_fuel(message.as_str()) {
                Err(ConnectorError::FuelExhausted { consumed: FUEL_LIMIT })
            } else {
                Err(ConnectorError::PolicyExecutionError(message))
            }
        },
    }
}

/// The clamped window `[start, end)` that the host log sink reads, if any:
/// a negative pointer yields nothing; the end is the requested end clamped
/// to the memory size (all of it for a negative length); an empty window
/// yields nothing.
pub open spec fn spec_log_window(mem_len: nat, ptr: int, len: int) -> Option<(int, int)> {
    if ptr < 0 {
        None
    } else {
        let end = if len < 0 {
            mem_len as int
        } else if ptr + len <= mem_len {
            ptr + len
        } else {
            mem_len as int
        };
        if ptr < end {
            Some((ptr, end))
        } else {
            None
        }
    }
}

/// Computes the clamped byte window the host log sink may read.
pub fn log_window(mem_len: usize, ptr: i32, len: i32) -> (r: Option<(usize, usize)>)
    ensures
        match r {
            Some((start, end)) => {
                &&& spec_log_window(mem_len as nat, ptr as int, len as int) == Some(
                    (start as int, end as int),
                )
                &&& start < end <= mem_len
            },
            None => spec_log_window(mem_len as nat, ptr as int, len as int) is None,
        },
{
    if ptr < 0 {
        return None;
    }
    let start = ptr as usize;
    let end: usize = if len < 0 {
        mem_len
    } else {
        let want = (ptr as u64) + (len as u64);
        if want <= mem_len as u64 {
            want as usize
        } else {
            mem_len
        }
    };
    if start < end {
        Some((start, end))
    } else {
        None
    }
}

/// The value of a guest-returned offset read as an unsigned 32-bit byte
/// offset.
pub open spec fn spec_unsigned32(x: int) -> int {
    if x >= 0 {
        x
    } else {
        x + 0x1_0000_0000
    }
}

/// Reinterprets a guest-returned i32 as an unsigned byte offset.
pub fn unsigned_of_i32(x: i32) -> (r: u64)
    ensures
        r == spec_unsigned32(x as int),
        r < 0x1_0000_0000,
{
    if x >= 0 {
        x as u64
    } else {
        ((x as i64) + 0x1_0000_0000i64) as u64
    }
}

/// Policy runtime managing execution of one compiled module.
#[derive(Clone)]
pub struct PolicyRuntime {
    pub engine: wasmtime::Engine,
    pub module: wasmtime::Module,
}

impl PolicyRuntime {
    /// Compiles a policy runtime from artifact bytes; any engine or
    /// compilation failure is a load-class error.
    pub fn new(wasm_bytes: &[u8]) -> (r: ConnectorResult<Self>)
        ensures
            r matches Err(e) ==> e is WasmLoadError,
    {
        let engine = match create_edge_engine() {
            Ok(e) => e,
            Err(e) => {
                return Err(e);
            },
        };
        let module = match module_new(&engine, wasm_bytes) {
            Ok(m) => m,
            Err(msg) => {
                let prefix = String::from_str("Failed to compile module: ");
                return Err(ConnectorError::WasmLoadError(prefix.concat(msg.as_str())));
            },
        };
        Ok(PolicyRuntime { engine, module })
    }

    /// Evaluates a request in a fresh sandbox: writes the request at the
    /// guest's input offset, calls the evaluation entry under the fuel
    /// budget, and classifies the outcome. Every failure is an
    /// evaluation-class error, never a verdict.
    pub fn evaluate_policy(&self, request_data: &[u8]) -> (r: ConnectorResult<bool>)
        ensures
            r matches Err(e) ==> !(e is WasmLoadError) && !(e is IoError),
    {
        let mut store = store_new(&self.engine);
        match store_set_fuel(&mut store, FUEL_LIMIT) {
            Ok(()) => (),
            Err(msg) => {
                let prefix = String::from_str("Failed to set fuel: ");
                return Err(ConnectorError::PolicyExecutionError(prefix.concat(msg.as_str())));
            },
        }
        let mut linker = linker_new(&self.engine);
        match linker_register_log(&mut linker) {
            Ok(()) => (),
            Err(msg) => {
                let prefix = String::from_str("Failed to register log: ");
                return Err(ConnectorError::PolicyExecutionError(prefix.concat(msg.as_str())));
            },
        }
        let instance = match linker_instantiate(&linker, &mut store, &self.module) {
            Ok(i) => i,
            Err(msg) => {
                let prefix = String::from_str("Failed to instantiate: ");
                return Err(ConnectorError::PolicyExecutionError(prefix.concat(msg.as_str())));
            },
        };
        let memory = match instance_get_memory(&mut store, &instance, "memory") {
            Some(m) => m,
            None => {
                return Err(ConnectorError::FunctionNotFound(String::from_str("memory")));
            },
        };
        let input_ptr: u64 = match probe_input_buffer(&mut store, &instance) {
            None => INPUT_BUFFER_OFFSET,
            Some(Ok(v)) => unsigned_of_i32(v),
            Some(Err(msg)) => {
                let prefix = String::from_str("Failed to get input buffer: ");
                return Err(ConnectorError::PolicyExecutionError(prefix.concat(msg.as_str())));
            },
        };
        let mem_size: usize = memory_data_size(&store, &memory);
        let request_len: usize = request_data.len();
        if input_ptr > (mem_size as u64) || (request_len as u64) > (mem_size as u64) - input_ptr {
            return Err(ConnectorError::MemoryOutOfBounds { offset: input_ptr });
        }
        if !memory_write(&mut store, &memory, input_ptr as usize, request_data) {
            return Err(ConnectorError::MemoryOutOfBounds { offset: input_ptr });
        }
        if request_len > (i32::MAX as usize) {
            return Err(ConnectorError::PolicyExecutionError(String::from_str(
                "Request too large",
            )));
        }
        let len_i32: i32 = request_len as i32;
        let ptr_i32: i32 = if input_ptr <= (i32::MAX as u64) {
            input_ptr as i32
        } else {
            ((input_ptr as i64) - 0x1_0000_0000i64) as i32
        };
        let outcome = call_evaluate_access(&mut store, &instance, ptr_i32, len_i32);
        classify_guest_outcome(outcome)
    }
}

/// Builds the engine configured for edge use: fuel metering on, a 65,536
/// byte stack cap, no dense image pre-allocation, a modest 16 MiB linear
/// memory reservation with a page-sized guard to keep the address-space
/// footprint small, SIMD, tail calls and relaxed SIMD off, bulk memory and
/// multi-value on, and the compiler tuned for speed and size.
pub fn create_edge_engine() -> (r: ConnectorResult<wasmtime::Engine>)
    ensures
        r matches Err(e) ==> e is WasmLoadError,
{
    let mut config = cfg_new();
    cfg_consume_fuel(&mut config, true);
    cfg_epoch_interruption(&mut config, false);
    cfg_max_wasm_stack(&mut config, 65536);
    cfg_memory_guaranteed_dense_image_size(&mut config, 0);
    cfg_memory_reservation(&mut config, 16777216);
    cfg_memory_guard_size(&mut config, 65536);
    cfg_wasm_simd(&mut config, false);
    cfg_wasm_bulk_memory(&mut config, true);
    cfg_wasm_multi_value(&mut config, true);
    cfg_wasm_tail_call(&mut config, false);
    cfg_wasm_relaxed_simd(&mut config, false);
    cfg_opt_level_speed_and_size(&mut config);
    match engine_new(&config) {
        Ok(e) => Ok(e),
        Err(msg) => Err(ConnectorError::WasmLoadError(msg)),
    }
}

} // verus!
