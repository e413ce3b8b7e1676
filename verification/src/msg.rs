//! The message model: the shapes of inbound requests and of what the module
//! hands back — the balance response and the outbound transfer instructions.

use vstd::prelude::*;

verus! {

/// The inbound setup request. It carries no fields: the owner is taken from
/// the authenticated caller of the initialization itself.
#[derive(Clone, Debug, PartialEq)]
pub struct InstantiateMsg {}

/// The inbound execution request.
#[derive(Clone, Debug, PartialEq)]
pub enum ExecuteMsg {
    /// Split and forward the module's balance: one outbound transfer per
    /// entry, in the order given.
    Distribute { recipients: Vec<AddressPortion> },
}

/// The inbound migration request: accepted unconditionally, no state change.
#[derive(Clone, Debug, PartialEq)]
pub struct MigrateMsg {}

/// The inbound read-only request.
#[derive(Clone, Debug, PartialEq)]
pub enum QueryMsg {
    /// Return the module's own native-currency balance.
    GetBalance {},
}

/// One caller-specified recipient share: a destination address and the exact
/// amount of native currency it is to receive. The address is not validated
/// beyond what the external ledger itself enforces; the amount is passed
/// through exactly, zero included.
#[derive(Clone, Debug, PartialEq)]
pub struct AddressPortion {
    pub addr: String,
    pub amount: u128,
}

/// One outbound transfer instruction, ready for ledger execution: pay
/// `amount` of `denom` to `to`. Produced one-to-one, in input order, from
/// the recipient shares of a distribution request.
#[derive(Clone, Debug, PartialEq)]
pub struct TransferInstruction {
    pub to: String,
    pub amount: u128,
    pub denom: String,
}

/// The response to a balance query: the ledger's reported amount, unchanged,
/// and the currency it is denominated in.
#[derive(Clone, Debug, PartialEq)]
pub struct BalanceResponse {
    pub amount: u128,
    pub denom: String,
}

} // verus!
