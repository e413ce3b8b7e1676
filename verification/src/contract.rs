//! The distribution engine, the balance query and the entry dispatchers.
//!
//! The engine validates the caller against the stored owner, validates the
//! shape of the recipient list, and turns the list into an ordered batch of
//! transfer instructions — one per recipient, in input order. It constructs
//! the batch only; executing it atomically is the external ledger's contract.

use vstd::prelude::*;

use crate::error::ContractError;
use crate::msg::{
    AddressPortion, BalanceResponse, ExecuteMsg, InstantiateMsg, MigrateMsg, QueryMsg,
    TransferInstruction,
};
use crate::state::{Config, ConfigStore, initialize_post};

verus! {

/// The module's native currency denomination.
pub open spec fn native_denom() -> Seq<char> {
    "uluna"@
}

/// One transfer instruction is the faithful image of one recipient share:
/// same destination, same amount, native denomination.
pub open spec fn instr_matches(share: AddressPortion, instr: TransferInstruction) -> bool {
    &&& instr.to@ == share.addr@
    &&& instr.amount == share.amount
    &&& instr.denom@ == native_denom()
}

/// The batch is the image of the recipient list: same length, and the
/// instruction at each position mirrors the share at the same position, so
/// input order is preserved exactly.
pub open spec fn batch_matches(recipients: Seq<AddressPortion>, batch: Seq<TransferInstruction>) -> bool {
    &&& batch.len() == recipients.len()
    &&& forall|i: int| 0 <= i < recipients.len() ==> instr_matches(recipients[i], #[trigger] batch[i])
}

/// The full behaviour of a distribution request against a store whose view
/// is `store`, a caller `sender` and a recipient list `recipients`:
/// `Uninitialized` before setup, `Unauthorized` for any caller other than
/// the owner, `NoRecipients` for an empty list, and otherwise the batch that
/// mirrors the list.
pub open spec fn distribute_post(
    store: Option<Seq<char>>,
    sender: Seq<char>,
    recipients: Seq<AddressPortion>,
    r: Result<Vec<TransferInstruction>, ContractError>,
) -> bool {
    match store {
        None => r == Err::<Vec<TransferInstruction>, ContractError>(ContractError::Uninitialized),
        Some(owner) => if sender != owner {
            r == Err::<Vec<TransferInstruction>, ContractError>(ContractError::Unauthorized)
        } else if recipients.len() == 0 {
            r == Err::<Vec<TransferInstruction>, ContractError>(ContractError::NoRecipients)
        } else {
            r matches Ok(batch) && batch_matches(recipients, batch@)
        },
    }
}

/// The recipient list carried by an execution request.
pub open spec fn msg_recipients(msg: ExecuteMsg) -> Seq<AddressPortion> {
    match msg {
        ExecuteMsg::Distribute { recipients } => recipients@,
    }
}

/// Creates the module's configuration, naming the authenticated caller as
/// owner. A second call fails with `AlreadyInitialized` and leaves the
/// stored owner unchanged.
pub fn instantiate(store: &mut ConfigStore, sender: String, _msg: InstantiateMsg) -> (r: Result<
    Config,
    ContractError,
>)
    ensures
        initialize_post(old(store)@, final(store)@, sender@, r),
{
    store.initialize(sender)
}

/// Accepts a migration request unconditionally; no state is touched.
pub fn migrate(_msg: MigrateMsg) -> (r: Result<(), ContractError>)
    ensures
        r == Ok::<(), ContractError>(()),
{
    Ok(())
}

/// Routes an execution request to its one handler: a distribution request
/// goes to `try_distribute` with its recipient list, untouched.
pub fn execute(store: &ConfigStore, sender: String, msg: ExecuteMsg) -> (r: Result<
    Vec<TransferInstruction>,
    ContractError,
>)
    ensures
        distribute_post(store@, sender@, msg_recipients(msg), r),
{
    match msg {
        ExecuteMsg::Distribute { recipients } => try_distribute(store, sender, recipients),
    }
}

/// Routes a read-only request to its one handler: a balance request is
/// answered from the ledger's report, in the native denomination.
pub fn query(msg: QueryMsg, ledger_balance: Option<u128>) -> (r: Result<
    BalanceResponse,
    ContractError,
>)
    ensures
        ledger_balance matches Some(amount) ==> (r matches Ok(b) && b.amount == amount
            && b.denom@ == native_denom()),
        ledger_balance is None ==> r == Err::<BalanceResponse, ContractError>(
            ContractError::LedgerQueryFailed,
        ),
{
    match msg {
        QueryMsg::GetBalance {  } => query_balance(ledger_balance, "uluna".to_owned()),
    }
}

/// Shapes the external ledger's answer to a balance lookup into the query
/// response. The reported amount is passed through exactly, zero included;
/// a ledger that could not answer surfaces as `LedgerQueryFailed`.
pub fn query_balance(ledger_balance: Option<u128>, denom: String) -> (r: Result<
    BalanceResponse,
    ContractError,
>)
    ensures
        ledger_balance matches Some(amount) ==> (r matches Ok(b) && b.amount == amount
            && b.denom@ == denom@),
        ledger_balance is None ==> r == Err::<BalanceResponse, ContractError>(
            ContractError::LedgerQueryFailed,
        ),
{
    match ledger_balance {
        Some(amount) => Ok(BalanceResponse { amount, denom }),
        None => Err(ContractError::LedgerQueryFailed),
    }
}

/// Validates a distribution request and constructs its batch: the caller
/// must be the stored owner and the list non-empty; each recipient share
/// then yields one transfer instruction, in input order. Zero amounts and
/// duplicate addresses pass through unchanged — policy on those is the
/// external ledger's.
pub fn try_distribute(store: &ConfigStore, sender: String, recipients: Vec<AddressPortion>) -> (r:
    Result<Vec<TransferInstruction>, ContractError>)
    ensures
        distribute_post(store@, sender@, recipients@, r),
{
    let cfg = match store.load() {
        Ok(c) => c,
        Err(e) => {
            return Err(e);
        },
    };

    if sender != cfg.owner {
        return Err(ContractError::Unauthorized);
    }

    if recipients.len() == 0 {
        return Err(ContractError::NoRecipients);
    }

    let mut batch: Vec<TransferInstruction> = Vec::new();
    let mut i: usize = 0;
    while i < recipients.len()
        invariant
            i <= recipients.len(),
            batch@.len() == i,
            forall|j: int| 0 <= j < i ==> instr_matches(recipients@[j], #[trigger] batch@[j]),
        decreases recipients.len() - i,
    {
        let share = &recipients[i];
        batch.push(
            TransferInstruction {
                to: share.addr.clone(),
                amount: share.amount,
                denom: "uluna".to_owned(),
            },
        );
        i = i + 1;
    }

    Ok(batch)
}

/// Authorization is absolute: against an initialized store, a caller other
/// than the owner is answered `Unauthorized`, whatever the recipient list
/// holds — the empty list included.
pub proof fn lemma_distribute_unauthorized(
    owner: Seq<char>,
    sender: Seq<char>,
    recipients: Seq<AddressPortion>,
    r: Result<Vec<TransferInstruction>, ContractError>,
)
    requires
        distribute_post(Some(owner), sender, recipients, r),
        sender != owner,
    ensures
        r == Err::<Vec<TransferInstruction>, ContractError>(ContractError::Unauthorized),
{
}

/// The owner with an empty recipient list is answered `NoRecipients`.
pub proof fn lemma_distribute_no_recipients(
    owner: Seq<char>,
    recipients: Seq<AddressPortion>,
    r: Result<Vec<TransferInstruction>, ContractError>,
)
    requires
        distribute_post(Some(owner), owner, recipients, r),
        recipients.len() == 0,
    ensures
        r == Err::<Vec<TransferInstruction>, ContractError>(ContractError::NoRecipients),
{
}

/// Failure is idempotent: two distribution requests with the same store
/// view, caller and recipient list that fail, fail with the same error.
/// No failure changes state: a distribution reads the store through a
/// shared reference and writes nothing.
pub proof fn lemma_distribute_failure_idempotent(
    store: Option<Seq<char>>,
    sender: Seq<char>,
    recipients: Seq<AddressPortion>,
    r1: Result<Vec<TransferInstruction>, ContractError>,
    r2: Result<Vec<TransferInstruction>, ContractError>,
)
    requires
        distribute_post(store, sender, recipients, r1),
        distribute_post(store, sender, recipients, r2),
        r1 is Err,
    ensures
        r2 is Err,
        r1 == r2,
{
}

} // verus!
