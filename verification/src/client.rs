//! The collaborator interfaces a bound contract talks to: the node client
//! with its state-query and transaction-submission primitives, and the sink
//! that receives diagnostic warnings.

use vstd::prelude::*;

use crate::error::TransactionError;

verus! {

/// `ethereum_types::H160`, the fixed-width account/contract address. The
/// library only carries addresses; it never looks inside one.
#[verifier::external_type_specification]
#[verifier::external_body]
pub struct ExH160(ethereum_types::H160);

/// `ethereum_types::H256`, the fixed-width block hash. Carried opaquely as
/// one of the block selectors.
#[verifier::external_type_specification]
#[verifier::external_body]
pub struct ExH256(ethereum_types::H256);

/// Relies on `Clone` for `ethereum_types::H160` (written by the
/// `construct_fixed_hash` macro of the `fixed-hash` crate): the clone copies
/// the 20-byte array and nothing else, so it equals the original.
pub assume_specification[ <ethereum_types::H160 as core::clone::Clone>::clone ](a:
    &ethereum_types::H160) -> (r: ethereum_types::H160)
    ensures
        r == *a,
;

/// The execution context of a read-only call: which point of chain history
/// the call resolves its state against.
pub enum BlockId {
    /// The best block the node currently knows.
    Latest,
    /// A specific block height.
    Number(u64),
    /// A specific block hash.
    Hash(ethereum_types::H256),
}

/// A transaction built for the submission primitive. The write-call only ever
/// builds service transactions: zero value, zero gas price.
#[derive(Debug, Clone, PartialEq, Eq)]
pub struct ServiceTransaction {
    /// The contract the transaction calls.
    pub to: ethereum_types::Address,
    /// The encoded call payload.
    pub data: Vec<u8>,
    /// The amount transferred, in the chain's smallest unit.
    pub value: u128,
    /// The gas price override the submission is made with.
    pub gas_price: u128,
}

/// The node client a contract is bound to.
///
/// The two primitives may only be used through a reference that exposes full
/// client capability (a light-client view does not), so both require
/// [`EngineClient::full_capability`]; a caller learns whether it holds from
/// [`EngineClient::has_full_capability`]. What the primitives return depends
/// on chain and pool state, so nothing is promised of their outcomes.
pub trait EngineClient {
    /// Whether this reference exposes the full state-query and
    /// transaction-submission capability.
    spec fn full_capability(&self) -> bool;

    /// The capability check: yields the full-capability view or reports its
    /// absence.
    fn has_full_capability(&self) -> (r: bool)
        ensures
            r == self.full_capability(),
    ;

    /// The read execution primitive: runs `data` as a read-only call against
    /// `address` at the state `block_id` selects, and returns the raw return
    /// bytes or an execution-level diagnostic. Mutates nothing.
    fn call_contract(&self, block_id: &BlockId, address: &ethereum_types::Address, data: Vec<u8>) -> (r: Result<
        Vec<u8>,
        String,
    >)
        requires
            self.full_capability(),
    ;

    /// The submission primitive: hands `tx` to the local pending-transaction
    /// pool, letting the pool assign the nonce, and reports how the pool
    /// received it. The interface carries service transactions only, so a
    /// submission must have zero value and zero gas price.
    fn transact(&self, tx: ServiceTransaction) -> (r: Result<(), TransactionError>)
        requires
            self.full_capability(),
            tx.value == 0,
            tx.gas_price == 0,
    ;
}

/// A client that answers every primitive from fixed outcomes. It stands in
/// where no node is at hand; a submission it reports as accepted leaves no
/// trace in it.
pub struct StaticClient {
    /// Whether the client exposes full capability.
    pub full: bool,
    /// What every read-only call returns.
    pub read_outcome: Result<Vec<u8>, String>,
    /// How the pool receives every submission.
    pub submit_outcome: Result<(), TransactionError>,
}

impl EngineClient for StaticClient {
    open spec fn full_capability(&self) -> bool {
        self.full
    }

    fn has_full_capability(&self) -> (r: bool) {
        self.full
    }

    fn call_contract(&self, block_id: &BlockId, address: &ethereum_types::Address, data: Vec<u8>) -> (r: Result<
        Vec<u8>,
        String,
    >) {
        match &self.read_outcome {
            Ok(bytes) => Ok(bytes.clone()),
            Err(reason) => Err(reason.clone()),
        }
    }

    fn transact(&self, tx: ServiceTransaction) -> (r: Result<(), TransactionError>) {
        match &self.submit_outcome {
            Ok(_) => Ok(()),
            Err(reason) => Err(reason.clone()),
        }
    }
}

} // verus!
