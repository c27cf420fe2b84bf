use vstd::prelude::*;
use crate::B160;
use crate::B256;
use crate::spec_id::SpecId;

verus! {

/// Why invoking a precompile failed. Every failure is recoverable by the
/// caller; the registry layer itself never aborts.
#[derive(Debug, Copy, Clone, PartialEq, Eq, Structural)]
pub enum Error {
    /// The input bytes are malformed for the routine (wrong length or encoding).
    InvalidInput,
    /// The computed gas cost exceeds the supplied gas limit.
    OutOfGas,
    /// The underlying cryptographic or arithmetic operation rejected the input.
    ComputationFailure,
}

/// Outcome of invoking a precompile: the gas consumed together with the
/// produced bytes, or a typed failure.
pub type PrecompileResult = Result<(u64, Vec<u8>), Error>;

/// Names the built-in routine bound to a registry slot and, where the gas
/// schedule changed across protocol versions, the schedule in force. The
/// concrete cryptographic computation behind each routine is an external
/// collaborator with a fixed call contract; the registry is a pure dispatch
/// table over these identifiers.
#[derive(Debug, Copy, Clone, PartialEq, Eq, Structural)]
pub enum Routine {
    EcRecover,
    Sha256,
    Ripemd160,
    Identity,
    ModExp(SpecId),
    Bn128Add(SpecId),
    Bn128Mul(SpecId),
    Bn128Pair(SpecId),
    Blake2F,
}

/// A registry entry: a routine together with a provenance tag. `Standard`
/// and `Custom` entries honor the same call contract; the tag exists only
/// to record where the entry came from.
#[derive(Debug, Copy, Clone, PartialEq, Eq, Structural)]
pub enum Precompile {
    Standard(Routine),
    Custom(Routine),
}

impl Precompile {
    /// The provenance tag as text.
    pub fn tag(&self) -> (r: &'static str)
        ensures
            self is Standard ==> r@ == "Standard"@,
            self is Custom ==> r@ == "Custom"@,
    {
        match self {
            Precompile::Standard(_) => "Standard",
            Precompile::Custom(_) => "Custom",
        }
    }
}

/// A VM log record, shaped exactly like the records bytecode emits, so that
/// precompile-emitted logs are indistinguishable from native ones.
#[derive(Debug)]
pub struct Log {
    pub address: B160,
    pub topics: Vec<B256>,
    pub data: Vec<u8>,
}

impl Default for Log {
    /// The zero-address record with no topics and no data.
    fn default() -> (r: Self)
        ensures
            forall|i: int| 0 <= i < 20 ==> r.address@[i] == 0u8,
            r.topics@ == Seq::<B256>::empty(),
            r.data@ == Seq::<u8>::empty(),
    {
        Log { address: [0u8; 20], topics: Vec::new(), data: Vec::new() }
    }
}

/// A successful precompile invocation: the gas charged, the output bytes,
/// and any log records the routine emitted.
#[derive(Debug)]
pub struct PrecompileOutput {
    pub cost: u64,
    pub output: Vec<u8>,
    pub logs: Vec<Log>,
}

impl PrecompileOutput {
    /// An output that emits no logs.
    pub fn without_logs(cost: u64, output: Vec<u8>) -> (r: Self)
        ensures
            r.cost == cost,
            r.output@ == output@,
            r.logs@ == Seq::<Log>::empty(),
    {
        Self { cost, output, logs: Vec::new() }
    }
}

/// An (address, entry) pair, the unit in which the ladder's data lists each
/// version's newly introduced precompiles.
pub struct PrecompileAddress(pub B160, pub Precompile);

impl From<PrecompileAddress> for (B160, Precompile) {
    /// Splits the pair into its parts.
    fn from(value: PrecompileAddress) -> (r: Self)
        ensures
            r.0 == value.0,
            r.1 == value.1,
    {
        (value.0, value.1)
    }
}

impl vstd::std_specs::convert::FromSpecImpl<PrecompileAddress> for (B160, Precompile) {
    open spec fn obeys_from_spec() -> bool {
        true
    }

    open spec fn from_spec(v: PrecompileAddress) -> Self {
        (v.0, v.1)
    }
}

} // verus!
