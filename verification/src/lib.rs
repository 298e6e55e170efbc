//! Core logic for a beancount editor extension: resolving the language-server
//! binary to launch, and a small heuristic assistant that suggests ledger
//! accounts, converts between a fixed set of currencies, renders transaction
//! templates, validates ledger text line by line, and keeps a cache of
//! recently seen accounts and payees.

pub mod text;
pub mod currency;
pub mod suggest;
pub mod validate;
pub mod cache;
pub mod resolver;

pub use cache::Assistant;
pub use currency::convert_currency;
pub use resolver::ResolvedBinary;
pub use suggest::generate_transaction_template;
pub use suggest::suggest_accounts;
pub use validate::validate_beancount_file;
pub use validate::ValidationError;
