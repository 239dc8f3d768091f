//! Payment-channel sessions between an employer and a receiver: escrow is
//! locked when a session opens, cumulative vouchers signed by the employer
//! release it to the receiver, and closing pays out the last voucher and
//! refunds the rest.
//!
//! `amount` holds token amounts of any size, `types` the session data,
//! `encoding` the byte layouts that are
//! hashed and signed, `crypto` the hash and signature primitives,
//! `session` the rules of one session, `store` the keyed storage,
//! `contract` the endpoints over all sessions, and `laws` the properties
//! that hold across them.

pub mod amount;
pub mod contract;
pub mod crypto;
pub mod encoding;
pub mod laws;
pub mod session;
pub mod store;
pub mod types;

pub use amount::Amount;
pub use contract::{ContractView, MppSessionContract};
pub use encoding::{
    amount_to_be_bytes, build_channel_id_message, build_voucher_message, domain_prefix_bytes, next_channel,
    u64_to_be_bytes,
};
pub use session::{
    close_session, new_session, request_close_session, settle_session, top_up_session,
};
pub use store::ByteKeyMap;
pub use types::{
    append_bytes, bytes_eq, copy_bytes, Address, Payment, SessionData, SessionError, SessionEvent,
    SessionStatus, SessionView, TokenId, TokenView, Transfer, STATUS_CLOSED, STATUS_NONE,
    STATUS_OPEN,
};
