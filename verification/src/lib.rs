//! A minimal on-ledger fund-distribution module: it holds a native-currency
//! balance and, on the stored owner's request, turns a caller-supplied list
//! of recipient shares into an ordered batch of transfer instructions for
//! the external ledger to execute atomically. A read-only balance query and
//! an owner-gated migration no-op round out the interface.

pub mod contract;
pub mod error;
pub mod msg;
pub mod randomearth_msg;
pub mod state;
