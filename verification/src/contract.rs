//! A contract bound to a client and block, and the two operations on it: the
//! read-only call and the zero-fee service-transaction submission.

use vstd::prelude::*;

use crate::client::BlockId;
use crate::client::EngineClient;
use crate::client::ServiceTransaction;
use crate::decoder::OutputDecoder;
use crate::error::CallError;
use crate::error::TransactionError;
use crate::warnings::WarningSink;

verus! {

/// A contract bound to a client and block.
///
/// A bound contract is a combination of a client reference, a [`BlockId`] and
/// a contract address. These three parts are enough to call a contract's
/// function; return values are decoded by a caller-supplied
/// [`OutputDecoder`]. The binding holds no cached state: every operation
/// resolves the block selector anew, so two calls through one binding with
/// [`BlockId::Latest`] may observe different chain states.
pub struct BoundContract<'a, C: EngineClient> {
    /// The client the contract is bound to, borrowed from the caller.
    pub client: &'a C,
    /// The block whose state read-only calls execute against.
    pub block_id: BlockId,
    /// The address of the bound contract.
    pub contract_addr: ethereum_types::Address,
}

/// What the read-call returns for a given decoder and a given outcome of the
/// read execution primitive: an execution diagnostic becomes
/// [`CallError::CallFailed`], returned bytes are decoded, and a decoder
/// rejection becomes [`CallError::DecodeFailed`].
pub open spec fn spec_read_result<D: OutputDecoder>(
    decoder: D,
    exec_outcome: Result<Vec<u8>, String>,
) -> Result<D::Output, CallError> {
    match exec_outcome {
        Ok(bytes) => match decoder.decode_spec(bytes@) {
            Ok(value) => Ok(value),
            Err(e) => Err(CallError::DecodeFailed(e)),
        },
        Err(reason) => Err(CallError::CallFailed(reason)),
    }
}

/// What the write-call returns for a given outcome of the submission
/// primitive. The mapping deliberately absorbs two rejections into success:
/// an identical transaction already pending (the engine may re-issue the same
/// service call every cycle), and a stale rejection (a known race between
/// nonce assignment and concurrent submission, suppressed on purpose). Every
/// other rejection surfaces as [`CallError::TransactionFailed`] with the
/// reason unchanged.
pub open spec fn spec_submit_result(outcome: Result<(), TransactionError>) -> Result<
    (),
    CallError,
> {
    match outcome {
        Ok(()) => Ok(()),
        Err(TransactionError::AlreadyImported) => Ok(()),
        Err(TransactionError::Old) => Ok(()),
        Err(e) => Err(CallError::TransactionFailed(e)),
    }
}

/// The diagnostic the write-call emits when a submission is rejected as
/// stale.
pub open spec fn stale_warning_text() -> Seq<char> {
    "transaction submission rejected as stale"@
}

/// The warnings a sink holds after the write-call resolved a given submission
/// outcome: exactly one record is added for a stale rejection, none
/// otherwise.
pub open spec fn spec_records_after(
    before: Seq<Seq<char>>,
    outcome: Result<(), TransactionError>,
) -> Seq<Seq<char>> {
    if outcome == Err::<(), TransactionError>(TransactionError::Old) {
        before.push(stale_warning_text())
    } else {
        before
    }
}

/// Builds the transaction the write-call submits: a call of `to` with payload
/// `data`, zero value and zero gas price, whatever the payload holds. The
/// zero gas price marks it as a privileged service transaction.
pub fn service_transaction(to: ethereum_types::Address, data: Vec<u8>) -> (t: ServiceTransaction)
    ensures
        t.to == to,
        t.data == data,
        t.value == 0,
        t.gas_price == 0,
{
    ServiceTransaction { to, data, value: 0, gas_price: 0 }
}

/// Turns the outcome of the read execution primitive into the read-call's
/// result, decoding returned bytes with `decoder`.
pub fn decode_call_output<D: OutputDecoder>(decoder: &D, exec_outcome: Result<Vec<u8>, String>) -> (r: Result<
    D::Output,
    CallError,
>)
    ensures
        r == spec_read_result(*decoder, exec_outcome),
{
    match exec_outcome {
        Ok(bytes) => match decoder.decode(bytes.as_slice()) {
            Ok(value) => Ok(value),
            Err(e) => Err(CallError::DecodeFailed(e)),
        },
        Err(reason) => Err(CallError::CallFailed(reason)),
    }
}

/// Resolves the outcome of the submission primitive into the write-call's
/// result, emitting the stale-rejection diagnostic into `warnings` where the
/// policy asks for one.
pub fn resolve_submission<W: WarningSink>(
    outcome: Result<(), TransactionError>,
    warnings: &mut W,
) -> (r: Result<(), CallError>)
    ensures
        r == spec_submit_result(outcome),
        final(warnings).records() == spec_records_after(old(warnings).records(), outcome),
{
    match outcome {
        Ok(()) => Ok(()),
        Err(TransactionError::AlreadyImported) => Ok(()),
        Err(TransactionError::Old) => {
            warnings.warn("transaction submission rejected as stale");
            Ok(())
        },
        Err(e) => Err(CallError::TransactionFailed(e)),
    }
}

impl<'a, C: EngineClient> BoundContract<'a, C> {
    /// Create a new `BoundContract`. Pure construction: neither the address
    /// nor the client's capability is validated here; validation is deferred
    /// to first use.
    pub fn bind(client: &'a C, block_id: BlockId, contract_addr: ethereum_types::Address) -> (b:
        BoundContract<'a, C>)
        ensures
            b.client == client,
            b.block_id == block_id,
            b.contract_addr == contract_addr,
    {
        BoundContract { client, block_id, contract_addr }
    }

    /// Perform a function call to the bound contract that doesn't create a
    /// transaction or change any state.
    ///
    /// If the client lacks full capability the call fails with
    /// [`CallError::NotFullClient`] and no query is attempted. Otherwise the
    /// payload is executed read-only at the binding's block, and the result
    /// is exactly [`spec_read_result`] of the decoder and of whatever the
    /// execution primitive returned.
    pub fn call_const<D: OutputDecoder>(&self, call: (Vec<u8>, D)) -> (r: Result<
        D::Output,
        CallError,
    >)
        ensures
            !self.client.full_capability() ==> r == Err::<D::Output, CallError>(
                CallError::NotFullClient,
            ),
            self.client.full_capability() ==> exists|exec_outcome: Result<Vec<u8>, String>|
                r == spec_read_result(call.1, exec_outcome),
    {
        let (data, output_decoder) = call;
        if !self.client.has_full_capability() {
            return Err(CallError::NotFullClient);
        }
        let exec_outcome = self.client.call_contract(&self.block_id, &self.contract_addr, data);
        let ghost witness = exec_outcome;
        let r = decode_call_output(&output_decoder, exec_outcome);
        proof {
            assert(r == spec_read_result(call.1, witness));
        }
        r
    }

    /// Schedules a service transaction (with gas price zero) that calls the
    /// bound contract.
    ///
    /// If the client lacks full capability the call fails with
    /// [`CallError::NotFullClient`] and nothing is submitted. Otherwise the
    /// payload is wrapped by [`service_transaction`] — zero value, zero gas
    /// price, nonce left to the submission primitive — and submitted; the
    /// result and the emitted diagnostics are exactly [`spec_submit_result`]
    /// and [`spec_records_after`] of whatever the primitive returned. The
    /// second item of `call` is not exercised: the execution result of a
    /// submitted transaction is only observed later, asynchronously, when the
    /// transaction is mined.
    pub fn schedule_service_transaction<D, W: WarningSink>(
        &self,
        call: (Vec<u8>, D),
        warnings: &mut W,
    ) -> (r: Result<(), CallError>)
        ensures
            !self.client.full_capability() ==> r == Err::<(), CallError>(CallError::NotFullClient)
                && final(warnings).records() == old(warnings).records(),
            self.client.full_capability() ==> exists|outcome: Result<(), TransactionError>|
                r == spec_submit_result(outcome) && final(warnings).records()
                    == spec_records_after(old(warnings).records(), outcome),
    {
        let (data, _) = call;
        if !self.client.has_full_capability() {
            return Err(CallError::NotFullClient);
        }
        let tx = service_transaction(self.contract_addr, data);
        let outcome = self.client.transact(tx);
        let ghost witness = outcome;
        let r = resolve_submission(outcome, warnings);
        proof {
            assert(r == spec_submit_result(witness));
            assert(warnings.records() == spec_records_after(old(warnings).records(), witness));
        }
        r
    }
}

/// When the read execution succeeds but the decoder rejects the returned
/// bytes, the read-call fails with exactly that decode failure; when the
/// decoder accepts them, the read-call returns exactly the decoded value.
pub proof fn lemma_read_follows_decoder<D: OutputDecoder>(decoder: D, bytes: Vec<u8>)
    ensures
        decoder.decode_spec(bytes@) matches Err(e) ==> spec_read_result(decoder, Ok(bytes))
            == Err::<D::Output, CallError>(CallError::DecodeFailed(e)),
        decoder.decode_spec(bytes@) matches Ok(value) ==> spec_read_result(decoder, Ok(bytes))
            == Ok::<D::Output, CallError>(value),
{
}

/// An accepted submission, and one rejected because an identical transaction
/// is already pending, both resolve to success: re-issuing the same service
/// call is idempotent from the caller's perspective.
pub proof fn lemma_duplicate_submission_succeeds(outcome: Result<(), TransactionError>)
    requires
        outcome == Ok::<(), TransactionError>(()) || outcome == Err::<(), TransactionError>(
            TransactionError::AlreadyImported,
        ),
    ensures
        spec_submit_result(outcome) == Ok::<(), CallError>(()),
{
}

/// A submission rejected as stale resolves to success, and the write-call
/// records exactly one diagnostic for it.
pub proof fn lemma_stale_rejection_suppressed(before: Seq<Seq<char>>)
    ensures
        spec_submit_result(Err(TransactionError::Old)) == Ok::<(), CallError>(()),
        spec_records_after(before, Err(TransactionError::Old)) == before.push(
            stale_warning_text(),
        ),
{
}

/// Every rejection other than the two suppressed ones surfaces as
/// [`CallError::TransactionFailed`] with the reason unchanged, and records no
/// diagnostic.
pub proof fn lemma_other_rejection_surfaces(before: Seq<Seq<char>>, reason: TransactionError)
    requires
        reason != TransactionError::AlreadyImported,
        reason != TransactionError::Old,
    ensures
        spec_submit_result(Err(reason)) == Err::<(), CallError>(
            CallError::TransactionFailed(reason),
        ),
        spec_records_after(before, Err(reason)) == before,
{
}

} // verus!
