//! Reusable checks on callers, tokens, payments and royalties, and a way to
//! run several of them in sequence.

pub mod admin;
pub mod compose;
pub mod owner;
pub mod payment;
pub mod royalty;

pub use admin::{check_caller_is_admin, get_configured_admin, require_admin};
pub use compose::{GuardBuilder, GuardComposition};
pub use owner::{check_caller_is_owner, get_owner_for_token, require_owner};
pub use payment::{detect_replay_payment, is_payment_already_processed, record_payment_processed};
pub use royalty::{validate_royalty_recipient, validate_royalty_state, validate_royalty_within_maximum};
