use vstd::prelude::*;
use crate::B160;
use crate::B256;

verus! {

/// The control signal every hook answers with: `Continue` lets native
/// execution proceed; any other value overrides or aborts it.
#[derive(Debug, Copy, Clone, PartialEq, Eq, Structural)]
pub enum Return {
    Continue,
    Stop,
    Revert,
    OutOfGas,
}

/// The gas accounting a hook may observe or substitute; this layer reads
/// only the limit.
#[derive(Debug, Copy, Clone, PartialEq, Eq, Structural)]
pub struct Gas {
    pub limit: u64,
}

impl Gas {
    /// A fresh gas counter with the given limit.
    pub fn new(limit: u64) -> (r: Self)
        ensures
            r.limit == limit,
    {
        Gas { limit }
    }
}

/// The interpreter state the step hooks observe and may rewrite. The real
/// machine carries far more; this layer names only what its hooks touch.
#[derive(Debug, Clone, PartialEq, Eq, Structural)]
pub struct Interpreter {
    pub program_counter: usize,
    pub gas: Gas,
}

/// The execution context the engine threads through every hook, generic in
/// the engine's own state database.
#[derive(Debug)]
pub struct EvmData<DB> {
    pub db: DB,
}

/// Descriptor of a sub-call about to run: target, transferred value, input
/// bytes, and the gas made available to it.
#[derive(Debug, Clone)]
pub struct CallInputs {
    pub contract: B160,
    pub value: u128,
    pub input: Vec<u8>,
    pub gas_limit: u64,
}

/// Descriptor of a contract creation about to run.
#[derive(Debug, Clone)]
pub struct CreateInputs {
    pub caller: B160,
    pub value: u128,
    pub init_code: Vec<u8>,
    pub gas_limit: u64,
}

/// A pluggable observer/overrider of execution, invoked synchronously by
/// the interpreter at nine fixed points. Every hook has a neutral default
/// body, proved neutral below, so an implementer overrides only the hooks
/// it cares about.
pub trait Inspector<DB>: Sized {
    /// Called once before the interpreter begins a frame; any signal other
    /// than `Return::Continue` aborts the frame before its first
    /// instruction. The default observes nothing and continues.
    #[allow(unused_variables)]
    fn initialize_interp(
        &mut self,
        interp: &mut Interpreter,
        data: &mut EvmData<DB>,
        is_static: bool,
    ) -> (r: Return)
        default_ensures
            r == Return::Continue,
            *final(interp) == *old(interp),
            *final(data) == *old(data),
            *final(self) == *old(self),
    {
        Return::Continue
    }

    /// Called before each instruction executes; a non-continue signal
    /// alters or aborts that instruction. The default observes nothing and
    /// continues.
    #[allow(unused_variables)]
    fn step(
        &mut self,
        interp: &mut Interpreter,
        data: &mut EvmData<DB>,
        is_static: bool,
    ) -> (r: Return)
        default_ensures
            r == Return::Continue,
            *final(interp) == *old(interp),
            *final(data) == *old(data),
            *final(self) == *old(self),
    {
        Return::Continue
    }

    /// Called when a log record is about to be emitted; observe-only. The
    /// default observes nothing.
    #[allow(unused_variables)]
    fn log(
        &mut self,
        evm_data: &mut EvmData<DB>,
        address: &B160,
        topics: &[B256],
        data: &[u8],
    )
        default_ensures
            *final(evm_data) == *old(evm_data),
            *final(self) == *old(self),
    {
    }

    /// Called after each instruction, with that instruction's own outcome;
    /// a non-continue signal overrides the effective outcome. The default
    /// observes nothing and continues.
    #[allow(unused_variables)]
    fn step_end(
        &mut self,
        interp: &mut Interpreter,
        data: &mut EvmData<DB>,
        is_static: bool,
        eval: Return,
    ) -> (r: Return)
        default_ensures
            r == Return::Continue,
            *final(interp) == *old(interp),
            *final(data) == *old(data),
            *final(self) == *old(self),
    {
        Return::Continue
    }

    /// Called before a sub-call begins; a non-continue signal overrides the
    /// call's result entirely with the returned (signal, gas, output),
    /// skipping actual execution. The default continues.
    #[allow(unused_variables)]
    fn call(
        &mut self,
        data: &mut EvmData<DB>,
        inputs: &mut CallInputs,
        is_static: bool,
    ) -> (r: (Return, Gas, Vec<u8>))
        default_ensures
            r.0 == Return::Continue,
            r.1.limit == 0,
            r.2@ == Seq::<u8>::empty(),
            *final(data) == *old(data),
            *final(inputs) == *old(inputs),
            *final(self) == *old(self),
    {
        (Return::Continue, Gas::new(0), Vec::new())
    }

    /// Called when a sub-call has concluded; the interpreter adopts the
    /// returned (signal, gas, output) as the call's result. The default
    /// hands the real outcome through unchanged.
    #[allow(unused_variables)]
    fn call_end(
        &mut self,
        data: &mut EvmData<DB>,
        inputs: &CallInputs,
        remaining_gas: Gas,
        ret: Return,
        out: Vec<u8>,
        is_static: bool,
    ) -> (r: (Return, Gas, Vec<u8>))
        default_ensures
            r.0 == ret,
            r.1 == remaining_gas,
            r.2@ == out@,
            *final(data) == *old(data),
            *final(self) == *old(self),
    {
        (ret, remaining_gas, out)
    }

    /// Called before a contract creation begins; a non-continue signal
    /// overrides the creation's result with the returned tuple, skipping
    /// actual execution. The default continues.
    #[allow(unused_variables)]
    fn create(
        &mut self,
        data: &mut EvmData<DB>,
        inputs: &mut CreateInputs,
    ) -> (r: (Return, Option<B160>, Gas, Vec<u8>))
        default_ensures
            r.0 == Return::Continue,
            r.1 is None,
            r.2.limit == 0,
            r.3@ == Seq::<u8>::empty(),
            *final(data) == *old(data),
            *final(inputs) == *old(inputs),
            *final(self) == *old(self),
    {
        (Return::Continue, None, Gas::new(0), Vec::new())
    }

    /// Called when a contract creation has concluded; the interpreter
    /// adopts the returned tuple as the creation's result. The default
    /// hands the real outcome through unchanged.
    #[allow(unused_variables)]
    fn create_end(
        &mut self,
        data: &mut EvmData<DB>,
        inputs: &CreateInputs,
        ret: Return,
        address: Option<B160>,
        remaining_gas: Gas,
        out: Vec<u8>,
    ) -> (r: (Return, Option<B160>, Gas, Vec<u8>))
        default_ensures
            r.0 == ret,
            r.1 == address,
            r.2 == remaining_gas,
            r.3@ == out@,
            *final(data) == *old(data),
            *final(self) == *old(self),
    {
        (ret, address, remaining_gas, out)
    }

    /// Called when a contract self-destructs; observe-only. The default
    /// observes nothing.
    fn selfdestruct(&mut self)
        default_ensures
            *final(self) == *old(self),
    {
    }
}

/// A mutable reference to an inspector is itself an inspector, forwarding
/// every hook; together with the owning-pointer impl below this lets
/// inspectors be chained without coupling callers to one concrete type.
impl<DB, I: Inspector<DB>> Inspector<DB> for &mut I {
    fn initialize_interp(
        &mut self,
        interp: &mut Interpreter,
        data: &mut EvmData<DB>,
        is_static: bool,
    ) -> Return {
        (**self).initialize_interp(interp, data, is_static)
    }

    fn step(
        &mut self,
        interp: &mut Interpreter,
        data: &mut EvmData<DB>,
        is_static: bool,
    ) -> Return {
        (**self).step(interp, data, is_static)
    }

    fn log(
        &mut self,
        evm_data: &mut EvmData<DB>,
        address: &B160,
        topics: &[B256],
        data: &[u8],
    ) {
        (**self).log(evm_data, address, topics, data)
    }

    fn step_end(
        &mut self,
        interp: &mut Interpreter,
        data: &mut EvmData<DB>,
        is_static: bool,
        eval: Return,
    ) -> Return {
        (**self).step_end(interp, data, is_static, eval)
    }

    fn call(
        &mut self,
        data: &mut EvmData<DB>,
        inputs: &mut CallInputs,
        is_static: bool,
    ) -> (Return, Gas, Vec<u8>) {
        (**self).call(data, inputs, is_static)
    }

    fn call_end(
        &mut self,
        data: &mut EvmData<DB>,
        inputs: &CallInputs,
        remaining_gas: Gas,
        ret: Return,
        out: Vec<u8>,
        is_static: bool,
    ) -> (Return, Gas, Vec<u8>) {
        (**self).call_end(data, inputs, remaining_gas, ret, out, is_static)
    }

    fn create(
        &mut self,
        data: &mut EvmData<DB>,
        inputs: &mut CreateInputs,
    ) -> (Return, Option<B160>, Gas, Vec<u8>) {
        (**self).create(data, inputs)
    }

    fn create_end(
        &mut self,
        data: &mut EvmData<DB>,
        inputs: &CreateInputs,
        ret: Return,
        address: Option<B160>,
        remaining_gas: Gas,
        out: Vec<u8>,
    ) -> (Return, Option<B160>, Gas, Vec<u8>) {
        (**self).create_end(data, inputs, ret, address, remaining_gas, out)
    }

    fn selfdestruct(&mut self) {
        (**self).selfdestruct()
    }
}

/// An owning pointer to an inspector is itself an inspector, forwarding
/// every hook; this lets inspectors be chained and stored without coupling
/// callers to one concrete type.
impl<DB, I: Inspector<DB>> Inspector<DB> for Box<I> {
    fn initialize_interp(
        &mut self,
        interp: &mut Interpreter,
        data: &mut EvmData<DB>,
        is_static: bool,
    ) -> Return {
        (**self).initialize_interp(interp, data, is_static)
    }

    fn step(
        &mut self,
        interp: &mut Interpreter,
        data: &mut EvmData<DB>,
        is_static: bool,
    ) -> Return {
        (**self).step(interp, data, is_static)
    }

    fn log(
        &mut self,
        evm_data: &mut EvmData<DB>,
        address: &B160,
        topics: &[B256],
        data: &[u8],
    ) {
        (**self).log(evm_data, address, topics, data)
    }

    fn step_end(
        &mut self,
        interp: &mut Interpreter,
        data: &mut EvmData<DB>,
        is_static: bool,
        eval: Return,
    ) -> Return {
        (**self).step_end(interp, data, is_static, eval)
    }

    fn call(
        &mut self,
        data: &mut EvmData<DB>,
        inputs: &mut CallInputs,
        is_static: bool,
    ) -> (Return, Gas, Vec<u8>) {
        (**self).call(data, inputs, is_static)
    }

    fn call_end(
        &mut self,
        data: &mut EvmData<DB>,
        inputs: &CallInputs,
        remaining_gas: Gas,
        ret: Return,
        out: Vec<u8>,
        is_static: bool,
    ) -> (Return, Gas, Vec<u8>) {
        (**self).call_end(data, inputs, remaining_gas, ret, out, is_static)
    }

    fn create(
        &mut self,
        data: &mut EvmData<DB>,
        inputs: &mut CreateInputs,
    ) -> (Return, Option<B160>, Gas, Vec<u8>) {
        (**self).create(data, inputs)
    }

    fn create_end(
        &mut self,
        data: &mut EvmData<DB>,
        inputs: &CreateInputs,
        ret: Return,
        address: Option<B160>,
        remaining_gas: Gas,
        out: Vec<u8>,
    ) -> (Return, Option<B160>, Gas, Vec<u8>) {
        (**self).create_end(data, inputs, ret, address, remaining_gas, out)
    }

    fn selfdestruct(&mut self) {
        (**self).selfdestruct()
    }
}

/// An inspector that keeps every default hook body: pure observation,
/// no override.
#[derive(Debug, Copy, Clone, PartialEq, Eq, Structural)]
pub struct NoOpInspector;

impl<DB> Inspector<DB> for NoOpInspector {
}

/// Whether a frame-level hook signal (`initialize_interp`, `step`) lets the
/// native path run: only a continue signal does.
pub open spec fn spec_proceeds(signal: Return) -> bool {
    signal == Return::Continue
}

/// Applies a frame-level hook signal: `true` exactly when native execution
/// proceeds.
pub fn proceeds(signal: Return) -> (r: bool)
    ensures
        r == spec_proceeds(signal),
{
    match signal {
        Return::Continue => true,
        _ => false,
    }
}

/// The instruction outcome in force after `step_end`: the hook's signal
/// where it overrides, otherwise the instruction's own outcome.
pub open spec fn spec_resolve_step_end(native: Return, hook: Return) -> Return {
    if hook == Return::Continue {
        native
    } else {
        hook
    }
}

/// Applies a `step_end` hook signal to the instruction's own outcome.
pub fn resolve_step_end(native: Return, hook: Return) -> (r: Return)
    ensures
        r == spec_resolve_step_end(native, hook),
{
    match hook {
        Return::Continue => native,
        _ => hook,
    }
}

/// Whether a `call` or `create` hook's signal overrides the native result:
/// every signal but continue does.
pub open spec fn spec_hook_overrides(signal: Return) -> bool {
    signal != Return::Continue
}

/// What the interpreter does with a `call` hook's answer: run the sub-call
/// natively, or skip it and adopt the given (signal, gas, output) as the
/// call's entire result.
#[derive(Debug, Clone, PartialEq, Eq)]
pub enum CallControl {
    Execute,
    Override(Return, Gas, Vec<u8>),
}

/// Applies a `call` hook's answer: a continue signal runs the sub-call
/// natively; anything else overrides its result, the target never executing.
pub fn resolve_call_hook(signal: Return, gas: Gas, output: Vec<u8>) -> (r: CallControl)
    ensures
        !spec_hook_overrides(signal) ==> r is Execute,
        spec_hook_overrides(signal) ==> (r matches CallControl::Override(s, g, o)
            && s == signal && g == gas && o@ == output@),
{
    match signal {
        Return::Continue => CallControl::Execute,
        _ => CallControl::Override(signal, gas, output),
    }
}

/// What the interpreter does with a `create` hook's answer.
#[derive(Debug, Clone, PartialEq, Eq)]
pub enum CreateControl {
    Execute,
    Override(Return, Option<B160>, Gas, Vec<u8>),
}

/// Applies a `create` hook's answer: a continue signal runs the creation
/// natively; anything else overrides its result entirely.
pub fn resolve_create_hook(
    signal: Return,
    address: Option<B160>,
    gas: Gas,
    output: Vec<u8>,
) -> (r: CreateControl)
    ensures
        !spec_hook_overrides(signal) ==> r is Execute,
        spec_hook_overrides(signal) ==> (r matches CreateControl::Override(s, a, g, o)
            && s == signal && a == address && g == gas && o@ == output@),
{
    match signal {
        Return::Continue => CreateControl::Execute,
        _ => CreateControl::Override(signal, address, gas, output),
    }
}

/// An inspector that answers every hook with its default body never alters
/// the interpreter's native outcome: its frame hooks continue, so the
/// native path runs; its `step_end` leaves each instruction's own outcome
/// in force; its `call` and `create` hooks never override the native
/// result; and its end hooks hand the native result through unchanged.
pub proof fn lemma_default_inspector_is_transparent(native: Return)
    ensures
        spec_proceeds(Return::Continue),
        spec_resolve_step_end(native, Return::Continue) == native,
        !spec_hook_overrides(Return::Continue),
{
}

} // verus!
