//! A fund-distribution ledger component.
//!
//! Deposits accumulate in a pooled balance held by a host ledger; on an
//! authorized trigger the entire pool is split among a fixed, ordered list
//! of payees. Every payee receives the floor of the balance divided by the
//! payee count, and the indivisible remainder goes to the first payee, so
//! the planned amounts always sum to the balance exactly.
//!
//! The host ledger itself (account balances, value transfers, the identity
//! of the caller and the value attached to a call) lives outside this
//! library: every operation here takes those observations as plain values
//! and returns the actions the host must perform.

mod account;
mod errors;
mod plan;
mod splitter;

pub use crate::account::AccountId;
pub use crate::account::Balance;
pub use crate::errors::Error;
pub use crate::plan::PayoutInfo;
pub use crate::plan::calculate_plan;
pub use crate::plan::lemma_calculate_deterministic;
pub use crate::plan::lemma_empty_payees_rejected;
pub use crate::plan::lemma_first_amount_fits;
pub use crate::plan::lemma_plan_partitions_balance;
pub use crate::plan::lemma_small_balance_rejected;
pub use crate::plan::lemma_zero_balance_rejected;
pub use crate::plan::plan_view;
pub use crate::plan::spec_amount;
pub use crate::plan::spec_calculate;
pub use crate::plan::spec_plan;
pub use crate::plan::spec_remainder;
pub use crate::plan::spec_share;
pub use crate::plan::sum_amounts;
pub use crate::splitter::Deposit;
pub use crate::splitter::PaymentSplitter;
