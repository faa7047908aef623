//! Verified core of the NEAR command-line commands that create and delete
//! accounts, delete access keys, import an account, call a contract function
//! and relay a signed meta transaction.
//!
//! Each command gathers its arguments step by step into a chain of contexts,
//! and finally turns the last context into an [`transaction::ActionContext`]:
//! the transaction to sign and send, the accounts it touches and the hook that
//! runs before signing.  The interactive, networked and file-system parts of
//! the commands are left to the caller; the library decides.
pub mod account_id;
pub mod call_function;
pub mod context;
pub mod create_account;
pub mod delete_account;
pub mod delete_key;
pub mod import_account;
pub mod laws;
pub mod public_key;
pub mod sign_as;
pub mod text;
pub mod transaction;
