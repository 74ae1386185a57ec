//! A counter that may be incremented at most once per five-minute window,
//! and a companion rule that releases a fixed token amount under the same
//! cooldown. The on-chain account plumbing lives outside this crate; the
//! records, the cooldown decision, and the record byte layout live here.

mod errors;
mod instructions;
mod state;

pub use errors::ErrorCode;
pub use instructions::add_one;
pub use instructions::lemma_cooldown_rate_limit;
pub use instructions::transfer_one_token;
pub use instructions::window_open;
pub use instructions::COOLDOWN_SECONDS;
pub use instructions::TRANSFER_AMOUNT;
pub use state::lemma_counter_bytes_round_trip;
pub use state::lemma_counter_round_trip;
pub use state::lemma_pda_auth_bytes_round_trip;
pub use state::lemma_pda_auth_round_trip;
pub use state::spec_counter_from_bytes;
pub use state::spec_counter_to_bytes;
pub use state::spec_pda_auth_from_bytes;
pub use state::spec_pda_auth_to_bytes;
pub use state::Counter;
pub use state::PdaAuth;
