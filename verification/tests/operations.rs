use std::cell::RefCell;

use contract_call::BlockId;
use contract_call::BoolDecoder;
use contract_call::BoundContract;
use contract_call::CallError;
use contract_call::DecodeError;
use contract_call::EngineClient;
use contract_call::ServiceTransaction;
use contract_call::StaticClient;
use contract_call::TransactionError;
use contract_call::WarningLog;
use contract_call::service_transaction;

use ethereum_types::Address;
use ethereum_types::H160;
use ethereum_types::H256;

/// A client whose pending pool is a real vector: a submission identical to a
/// pending transaction is rejected as already imported, a forced rejection is
/// returned verbatim, anything else is admitted into the pool.
struct PoolClient {
    full: bool,
    read_outcome: Result<Vec<u8>, String>,
    reject_with: Option<TransactionError>,
    pending: RefCell<Vec<ServiceTransaction>>,
}

impl PoolClient {
    fn full_with_read(read_outcome: Result<Vec<u8>, String>) -> PoolClient {
        PoolClient {
            full: true,
            read_outcome,
            reject_with: None,
            pending: RefCell::new(Vec::new()),
        }
    }

    fn pool_len(&self) -> usize {
        self.pending.borrow().len()
    }
}

impl EngineClient for PoolClient {
    // The ghost view of the capability; never called at run time.
    fn full_capability(&self) -> bool {
        self.full
    }

    fn has_full_capability(&self) -> bool {
        self.full
    }

    fn call_contract(&self, _block_id: &BlockId, _address: &Address, _data: Vec<u8>) -> Result<Vec<u8>, String> {
        self.read_outcome.clone()
    }

    fn transact(&self, tx: ServiceTransaction) -> Result<(), TransactionError> {
        if let Some(reason) = &self.reject_with {
            return Err(reason.clone());
        }
        if self.pending.borrow().iter().any(|pending| pending == &tx) {
            return Err(TransactionError::AlreadyImported);
        }
        self.pending.borrow_mut().push(tx);
        Ok(())
    }
}

/// A client without full capability whose primitives must never be reached.
struct LightClient;

impl EngineClient for LightClient {
    // The ghost view of the capability; never called at run time.
    fn full_capability(&self) -> bool {
        false
    }

    fn has_full_capability(&self) -> bool {
        false
    }

    fn call_contract(&self, _block_id: &BlockId, _address: &Address, _data: Vec<u8>) -> Result<Vec<u8>, String> {
        panic!("read primitive invoked on a client without full capability");
    }

    fn transact(&self, _tx: ServiceTransaction) -> Result<(), TransactionError> {
        panic!("submission primitive invoked on a client without full capability");
    }
}

/// A client that routes each read payload to its own outcome: one payload
/// reverts, every other returns a single true byte.
struct RoutingClient;

const REVERTING_PAYLOAD: u8 = 0x0F;

impl EngineClient for RoutingClient {
    // The ghost view of the capability; never called at run time.
    fn full_capability(&self) -> bool {
        true
    }

    fn has_full_capability(&self) -> bool {
        true
    }

    fn call_contract(&self, _block_id: &BlockId, _address: &Address, data: Vec<u8>) -> Result<Vec<u8>, String> {
        if data == vec![REVERTING_PAYLOAD] {
            Err(String::from("contract reverted"))
        } else {
            Ok(vec![0x01])
        }
    }

    fn transact(&self, _tx: ServiceTransaction) -> Result<(), TransactionError> {
        Ok(())
    }
}

fn contract_address() -> Address {
    H160([0xAA; 20])
}

#[test]
fn one_binding_serves_both_read_examples() {
    let client = RoutingClient;
    let bound = BoundContract::bind(&client, BlockId::Latest, contract_address());
    assert_eq!(
        bound.call_const((vec![REVERTING_PAYLOAD], BoolDecoder)),
        Err(CallError::CallFailed(String::from("contract reverted")))
    );
    assert_eq!(bound.call_const((vec![0x10u8], BoolDecoder)), Ok(true));
}

#[test]
fn read_without_capability_fails_and_touches_nothing() {
    let client = LightClient;
    let bound = BoundContract::bind(&client, BlockId::Latest, contract_address());
    let result = bound.call_const((vec![1u8, 2, 3], BoolDecoder));
    assert_eq!(result, Err(CallError::NotFullClient));
}

#[test]
fn write_without_capability_fails_and_touches_nothing() {
    let client = LightClient;
    let bound = BoundContract::bind(&client, BlockId::Latest, contract_address());
    let mut warnings = WarningLog::new();
    let result = bound.schedule_service_transaction((vec![1u8, 2, 3], BoolDecoder), &mut warnings);
    assert_eq!(result, Err(CallError::NotFullClient));
    assert_eq!(warnings.len(), 0);
}

#[test]
fn read_against_reverting_contract_fails_execution() {
    let client = PoolClient::full_with_read(Err(String::from("contract reverted")));
    let bound = BoundContract::bind(&client, BlockId::Latest, contract_address());
    let result = bound.call_const((vec![0x0Fu8], BoolDecoder));
    assert_eq!(result, Err(CallError::CallFailed(String::from("contract reverted"))));
}

#[test]
fn read_decodes_single_true_byte() {
    let client = PoolClient::full_with_read(Ok(vec![0x01u8]));
    let bound = BoundContract::bind(&client, BlockId::Latest, contract_address());
    let result = bound.call_const((vec![0x10u8], BoolDecoder));
    assert_eq!(result, Ok(true));
}

#[test]
fn read_rejected_by_decoder_fails_decode() {
    let client = PoolClient::full_with_read(Ok(vec![0x07u8]));
    let bound = BoundContract::bind(&client, BlockId::Number(42), contract_address());
    let result = bound.call_const((vec![0x10u8], BoolDecoder));
    assert_eq!(result, Err(CallError::DecodeFailed(DecodeError::InvalidData)));
}

#[test]
fn read_resolves_against_hash_context() {
    let client = PoolClient::full_with_read(Ok(vec![0x00u8]));
    let bound = BoundContract::bind(&client, BlockId::Hash(H256([0x11; 32])), contract_address());
    let result = bound.call_const((vec![0x10u8], BoolDecoder));
    assert_eq!(result, Ok(false));
}

#[test]
fn service_transaction_is_zero_fee_whatever_the_payload() {
    let payloads: Vec<Vec<u8>> = vec![vec![], vec![0xFFu8], vec![1u8, 2, 3, 4, 5]];
    for payload in payloads {
        let tx = service_transaction(contract_address(), payload.clone());
        assert_eq!(tx.value, 0);
        assert_eq!(tx.gas_price, 0);
        assert_eq!(tx.to, contract_address());
        assert_eq!(tx.data, payload);
    }
}

#[test]
fn write_submits_zero_value_and_zero_gas_price() {
    let client = PoolClient::full_with_read(Ok(vec![]));
    let bound = BoundContract::bind(&client, BlockId::Latest, contract_address());
    let mut warnings = WarningLog::new();
    let result = bound.schedule_service_transaction((vec![0xDEu8, 0xAD], BoolDecoder), &mut warnings);
    assert_eq!(result, Ok(()));
    let pending = client.pending.borrow();
    assert_eq!(pending.len(), 1);
    assert_eq!(pending[0].value, 0);
    assert_eq!(pending[0].gas_price, 0);
    assert_eq!(pending[0].to, contract_address());
    assert_eq!(pending[0].data, vec![0xDEu8, 0xAD]);
}

#[test]
fn identical_payload_twice_succeeds_both_times() {
    let client = PoolClient::full_with_read(Ok(vec![]));
    let bound = BoundContract::bind(&client, BlockId::Latest, contract_address());
    let mut warnings = WarningLog::new();
    let first = bound.schedule_service_transaction((vec![0x42u8], BoolDecoder), &mut warnings);
    let second = bound.schedule_service_transaction((vec![0x42u8], BoolDecoder), &mut warnings);
    assert_eq!(first, Ok(()));
    assert_eq!(second, Ok(()));
    assert_eq!(client.pool_len(), 1);
    assert_eq!(warnings.len(), 0);
}

#[test]
fn duplicate_of_pending_transaction_leaves_pool_unchanged() {
    let client = PoolClient::full_with_read(Ok(vec![]));
    let bound = BoundContract::bind(&client, BlockId::Latest, contract_address());
    let mut warnings = WarningLog::new();
    assert_eq!(
        bound.schedule_service_transaction((vec![0x52u8], BoolDecoder), &mut warnings),
        Ok(())
    );
    let pool_before = client.pool_len();
    let resubmit = bound.schedule_service_transaction((vec![0x52u8], BoolDecoder), &mut warnings);
    assert_eq!(resubmit, Ok(()));
    assert_eq!(client.pool_len(), pool_before);
}

#[test]
fn stale_rejection_succeeds_with_one_diagnostic() {
    let mut client = PoolClient::full_with_read(Ok(vec![]));
    client.reject_with = Some(TransactionError::Old);
    let bound = BoundContract::bind(&client, BlockId::Latest, contract_address());
    let mut warnings = WarningLog::new();
    let result = bound.schedule_service_transaction((vec![0x99u8], BoolDecoder), &mut warnings);
    assert_eq!(result, Ok(()));
    assert_eq!(warnings.len(), 1);
    assert_eq!(
        warnings.messages,
        vec![String::from("transaction submission rejected as stale")]
    );
}

#[test]
fn other_rejection_surfaces_unchanged() {
    let mut client = PoolClient::full_with_read(Ok(vec![]));
    client.reject_with = Some(TransactionError::Other(String::from("insufficient balance")));
    let bound = BoundContract::bind(&client, BlockId::Latest, contract_address());
    let mut warnings = WarningLog::new();
    let result = bound.schedule_service_transaction((vec![0x99u8], BoolDecoder), &mut warnings);
    assert_eq!(
        result,
        Err(CallError::TransactionFailed(TransactionError::Other(String::from(
            "insufficient balance"
        ))))
    );
    assert_eq!(warnings.len(), 0);
}

#[test]
fn static_client_without_capability_refuses_both_operations() {
    let client = StaticClient {
        full: false,
        read_outcome: Ok(vec![0x01u8]),
        submit_outcome: Ok(()),
    };
    let bound = BoundContract::bind(&client, BlockId::Latest, contract_address());
    assert_eq!(bound.call_const((vec![], BoolDecoder)), Err(CallError::NotFullClient));
    let mut warnings = WarningLog::new();
    assert_eq!(
        bound.schedule_service_transaction((vec![], BoolDecoder), &mut warnings),
        Err(CallError::NotFullClient)
    );
}

#[test]
fn static_client_serves_fixed_outcomes() {
    let client = StaticClient {
        full: true,
        read_outcome: Ok(vec![0x01u8]),
        submit_outcome: Err(TransactionError::AlreadyImported),
    };
    let bound = BoundContract::bind(&client, BlockId::Number(7), contract_address());
    assert_eq!(bound.call_const((vec![0x20u8], BoolDecoder)), Ok(true));
    let mut warnings = WarningLog::new();
    assert_eq!(
        bound.schedule_service_transaction((vec![0x20u8], BoolDecoder), &mut warnings),
        Ok(())
    );
    assert_eq!(warnings.len(), 0);
}
