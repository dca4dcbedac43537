//! Bookkeeping rules of a personal ledger: record kinds and their stored names, the
//! preset accounts and categories, the order of new items, the checks that guard
//! deletions, what records do to account balances, budget upserts, the queries that
//! list categories and records, and the months that statistics and budgets cover.

pub mod account;
pub mod budget;
pub mod category;
pub mod error;
pub mod period;
pub mod query;
pub mod record;
pub mod record_type;
pub mod statistics;
pub mod text;

pub use category::Category;
pub use error::{AppError, AppResult};
pub use record_type::RecordType;
