//! Stores that keep their state in memory, and the parts of the durable
//! stores that compute.

pub mod hashmap_two_fa_code_store;
pub mod hashmap_user_store;
pub mod hashset_banned_token_store;
pub mod password_hash;
pub mod postgres_user_store;
pub mod redis_banned_token_store;
pub mod redis_two_fa_code_store;

pub use hashmap_two_fa_code_store::HashMapTwoFACodeStore;
pub use hashmap_user_store::HashMapUserStore;
pub use hashset_banned_token_store::HashSetBannedTokenStore;
