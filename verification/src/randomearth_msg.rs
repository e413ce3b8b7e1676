//! Message shapes for a marketplace withdrawal request: a nested record
//! naming a native-token asset and an amount. These are plain data shapes;
//! no handler in this module's scope consumes them.

use vstd::prelude::*;

verus! {

/// The outermost withdrawal request shape.
#[derive(Clone, Debug, Default, PartialEq)]
pub struct RandomEarthWithdraw {
    pub withdraw: Withdraw,
}

/// The withdrawal body: the asset to withdraw.
#[derive(Clone, Debug, Default, PartialEq)]
pub struct Withdraw {
    pub asset: Asset,
}

/// An asset: a token description and an amount in decimal string form.
#[derive(Clone, Debug, Default, PartialEq)]
pub struct Asset {
    pub info: Info,
    pub amount: String,
}

/// A token description: which native token the asset is denominated in.
#[derive(Clone, Debug, Default, PartialEq)]
pub struct Info {
    pub native_token: NativeToken,
}

/// A native token, named by its denomination.
#[derive(Clone, Debug, Default, PartialEq)]
pub struct NativeToken {
    pub denom: String,
}

} // verus!
