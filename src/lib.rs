//! Watches a program's log stream, drops redelivered notifications and
//! decodes newly created pool token pairs from the resolved transactions.
pub mod dedup;
pub mod extract;
pub mod model;
pub mod subscription;
pub mod watcher;

pub use dedup::Deduplicator;
pub use extract::{extract, ExtractError, MIN_ACCOUNTS, TOKEN0_INDEX, TOKEN1_INDEX};
pub use model::{Address, Instruction, LogNotification, PoolTokenPair, TransactionRecord, ADDRESS_LEN};
pub use subscription::{
    handle_from_field, request_from_quoted, subscription_handle, subscription_request, Commitment,
    SubscriptionError,
};
pub use watcher::{Action, ResolveError, Step, Watcher};
