//! A two-party escrow agreement mediated by an external settlement ledger.
//!
//! A buyer and a seller each owe a good-faith stake, a fixed percentage of
//! the sale price. The library is the escrow state machine: who may trigger
//! each transition, which preconditions guard it, how it changes the stake
//! and cancellation records, and which settlement instructions it emits.
//! Moving the funds, persisting the records and encoding messages are the
//! surrounding runtime's business; the machine itself is pure.

pub mod laws;
pub mod machine;
pub mod msg;
pub mod state;
pub mod status;

pub use machine::{
    execute, execute_cancel, execute_confirm, execute_revoke_cancellation, execute_revoke_stake,
    execute_stake, execute_stake_with_babylon, instantiate, role, Role,
};
pub use msg::{BabylonMsg, EscrowError, ExecuteMsg, InstantiateMsg, QueryMsg, SettlementInstruction};
pub use state::{CancelRecord, Escrow, StakeRecord, State};
pub use status::{query, query_status, ContractStatus};
