use vstd::prelude::*;

use crate::amount::Amount;
use vstd::string::StringSliceAdditionalSpecFns;

verus! {

/// A 32-byte account address.
#[derive(Clone, Copy, Debug)]
pub struct Address {
    pub bytes: [u8; 32],
}

impl View for Address {
    type V = Seq<u8>;

    open spec fn view(&self) -> Seq<u8> {
        self.bytes@
    }
}

/// Byte-wise equality of two slices.
pub fn bytes_eq(a: &[u8], b: &[u8]) -> (r: bool)
    ensures
        r == (a@ == b@),
{
    if a.len() != b.len() {
        return false;
    }
    let mut i: usize = 0;
    while i < a.len()
        invariant
            a@.len() == b@.len(),
            i <= a@.len(),
            forall|j: int| 0 <= j < i ==> a@[j] == b@[j],
        decreases a@.len() - i,
    {
        if a[i] != b[i] {
            return false;
        }
        i = i + 1;
    }
    assert(a@ =~= b@);
    true
}

impl Address {
    pub fn new(bytes: [u8; 32]) -> (r: Address)
        ensures
            r.bytes == bytes,
    {
        Address { bytes }
    }

    /// Whether two addresses hold the same bytes.
    pub fn same_as(&self, other: &Address) -> (r: bool)
        ensures
            r == (self@ == other@),
    {
        bytes_eq(self.bytes.as_slice(), other.bytes.as_slice())
    }
}


/// Copies a byte slice into a fresh vector.
pub fn copy_bytes(src: &[u8]) -> (r: Vec<u8>)
    ensures
        r@ == src@,
{
    let mut out: Vec<u8> = Vec::new();
    append_bytes(&mut out, src);
    out
}

/// Appends the bytes of `src` at the end of `dst`.
pub fn append_bytes(dst: &mut Vec<u8>, src: &[u8])
    ensures
        final(dst)@ == old(dst)@ + src@,
{
    let ghost start = dst@;
    let mut i: usize = 0;
    while i < src.len()
        invariant
            i <= src@.len(),
            dst@ == start + src@.subrange(0, i as int),
        decreases src@.len() - i,
    {
        dst.push(src[i]);
        i = i + 1;
        assert(dst@ =~= start + src@.subrange(0, i as int));
    }
    assert(src@.subrange(0, src@.len() as int) =~= src@);
}

/// What a token identifier denotes.
pub enum TokenView {
    Egld,
    Esdt(Seq<u8>),
}

/// The token a session escrows: the native coin, or a fungible token
/// named by its identifier.
#[derive(Debug)]
pub enum TokenId {
    Egld,
    Esdt(Vec<u8>),
}

impl View for TokenId {
    type V = TokenView;

    open spec fn view(&self) -> TokenView {
        match self {
            TokenId::Egld => TokenView::Egld,
            TokenId::Esdt(name) => TokenView::Esdt(name@),
        }
    }
}

impl TokenId {
    /// Whether this is the native coin.
    pub fn is_egld(&self) -> (r: bool)
        ensures
            r == (self@ == TokenView::Egld),
    {
        match self {
            TokenId::Egld => true,
            TokenId::Esdt(_) => false,
        }
    }

    /// Whether two identifiers name the same token.
    pub fn same_as(&self, other: &TokenId) -> (r: bool)
        ensures
            r == (self@ == other@),
    {
        match (self, other) {
            (TokenId::Egld, TokenId::Egld) => true,
            (TokenId::Esdt(a), TokenId::Esdt(b)) => bytes_eq(a.as_slice(), b.as_slice()),
            _ => false,
        }
    }

    /// A fresh copy of this identifier.
    pub fn duplicate(&self) -> (r: TokenId)
        ensures
            r@ == self@,
    {
        match self {
            TokenId::Egld => TokenId::Egld,
            TokenId::Esdt(name) => TokenId::Esdt(copy_bytes(name.as_slice())),
        }
    }
}

/// The stored status code of a session that was never opened.
pub const STATUS_NONE: u8 = 0;

/// The stored status code of an open session.
pub const STATUS_OPEN: u8 = 1;

/// The stored status code of a closed session.
pub const STATUS_CLOSED: u8 = 2;

/// The lifecycle of a session.
#[derive(Clone, Copy, Debug, PartialEq, Eq, Structural)]
pub enum SessionStatus {
    NotOpened,
    Open,
    Closed,
}

impl SessionStatus {
    /// The code under which the status is stored.
    pub open spec fn spec_code(self) -> u8 {
        match self {
            SessionStatus::NotOpened => STATUS_NONE,
            SessionStatus::Open => STATUS_OPEN,
            SessionStatus::Closed => STATUS_CLOSED,
        }
    }

    /// The code under which the status is stored.
    pub fn code(&self) -> (r: u8)
        ensures
            r == self.spec_code(),
    {
        match self {
            SessionStatus::NotOpened => STATUS_NONE,
            SessionStatus::Open => STATUS_OPEN,
            SessionStatus::Closed => STATUS_CLOSED,
        }
    }

    /// The status stored under a code, if the code names one.
    pub fn from_code(code: u8) -> (r: Option<SessionStatus>)
        ensures
            match r {
                Some(st) => st.spec_code() == code,
                None => code > STATUS_CLOSED,
            },
    {
        if code == STATUS_NONE {
            Some(SessionStatus::NotOpened)
        } else if code == STATUS_OPEN {
            Some(SessionStatus::Open)
        } else if code == STATUS_CLOSED {
            Some(SessionStatus::Closed)
        } else {
            None
        }
    }
}

/// What a stored session holds, as plain values.
pub struct SessionView {
    pub employer: Seq<u8>,
    pub receiver: Seq<u8>,
    pub token: TokenView,
    pub amount_locked: nat,
    pub amount_settled: nat,
    pub nonce: u64,
    pub deadline: u64,
    pub status: u8,
}

/// One payment session: who pays, who is paid, in which token, how much is
/// escrowed and how much of it the receiver has already claimed, the nonce
/// of the last voucher accepted, the deadline after which the employer may
/// reclaim the rest, and the status code.
#[derive(Debug)]
pub struct SessionData {
    pub employer: Address,
    pub receiver: Address,
    pub token_identifier: TokenId,
    pub amount_locked: Amount,
    pub amount_settled: Amount,
    pub nonce: u64,
    pub deadline: u64,
    pub status: u8,
}

impl View for SessionData {
    type V = SessionView;

    open spec fn view(&self) -> SessionView {
        SessionView {
            employer: self.employer@,
            receiver: self.receiver@,
            token: self.token_identifier@,
            amount_locked: self.amount_locked@,
            amount_settled: self.amount_settled@,
            nonce: self.nonce,
            deadline: self.deadline,
            status: self.status,
        }
    }
}

impl SessionData {
    /// A fresh copy of this session.
    pub fn duplicate(&self) -> (r: SessionData)
        ensures
            r@ == self@,
    {
        SessionData {
            employer: self.employer,
            receiver: self.receiver,
            token_identifier: self.token_identifier.duplicate(),
            amount_locked: self.amount_locked.duplicate(),
            amount_settled: self.amount_settled.duplicate(),
            nonce: self.nonce,
            deadline: self.deadline,
            status: self.status,
        }
    }

    /// Whether the session is open.
    pub fn is_open(&self) -> (r: bool)
        ensures
            r == (self.status == STATUS_OPEN),
    {
        self.status == STATUS_OPEN
    }
}

/// The payment that comes with a call: a token and an amount.
#[derive(Debug)]
pub struct Payment {
    pub token_identifier: TokenId,
    pub amount: Amount,
}

/// A transfer that the contract makes out of escrow.
#[derive(Debug)]
pub struct Transfer {
    pub to: Address,
    pub token_identifier: TokenId,
    pub amount: Amount,
}

impl Transfer {
    /// Whether this transfer pays `amount` of `token` to `to`.
    pub open spec fn pays(self, to: Seq<u8>, token: TokenView, amount: nat) -> bool {
        &&& self.to@ == to
        &&& self.token_identifier@ == token
        &&& self.amount@ == amount
    }
}

/// What a successful endpoint call announces.
#[derive(Debug)]
pub enum SessionEvent {
    Opened {
        channel_id: Vec<u8>,
        employer: Address,
        receiver: Address,
        token_identifier: TokenId,
        amount: Amount,
    },
    Settled { channel_id: Vec<u8>, nonce: u64, amount: Amount },
    Closed { channel_id: Vec<u8>, amount: Amount, refund_amount: Amount },
}

impl SessionEvent {
    /// Whether this announces the opening of `channel_id` by `employer` for
    /// `receiver`, escrowing `amount` of `token`.
    pub open spec fn is_opened(
        self,
        channel_id: Seq<u8>,
        employer: Seq<u8>,
        receiver: Seq<u8>,
        token: TokenView,
        amount: nat,
    ) -> bool {
        match self {
            SessionEvent::Opened { channel_id: c, employer: e, receiver: r, token_identifier: t, amount: a } => {
                &&& c@ == channel_id
                &&& e@ == employer
                &&& r@ == receiver
                &&& t@ == token
                &&& a@ == amount
            },
            _ => false,
        }
    }

    /// Whether this announces a settlement on `channel_id` of the voucher
    /// with `nonce` for the cumulative `amount`.
    pub open spec fn is_settled(self, channel_id: Seq<u8>, nonce: u64, amount: nat) -> bool {
        match self {
            SessionEvent::Settled { channel_id: c, nonce: n, amount: a } => {
                &&& c@ == channel_id
                &&& n == nonce
                &&& a@ == amount
            },
            _ => false,
        }
    }

    /// Whether this announces the closing of `channel_id` with `amount`
    /// settled in all and `refund_amount` returned to the employer.
    pub open spec fn is_closed(self, channel_id: Seq<u8>, amount: nat, refund_amount: nat) -> bool {
        match self {
            SessionEvent::Closed { channel_id: c, amount: a, refund_amount: f } => {
                &&& c@ == channel_id
                &&& a@ == amount
                &&& f@ == refund_amount
            },
            _ => false,
        }
    }
}

/// Why a call is refused. A refused call changes nothing.
#[derive(Clone, Copy, Debug, PartialEq, Eq, Structural)]
pub enum SessionError {
    /// The payment is zero.
    ZeroDeposit,
    /// The deadline is not after the current time.
    DeadlineInPast,
    /// The session is not open.
    AlreadyClosed,
    /// The payment is in another token than the session's.
    InvalidToken,
    /// The voucher's nonce is not newer than the last one accepted.
    StaleVoucher,
    /// The voucher's amount is below what was already settled.
    InvalidAmount,
    /// The voucher's amount exceeds the escrow.
    InsufficientFunds,
    /// Only the employer may reclaim the escrow.
    NotEmployer,
    /// The deadline has not been reached.
    ChallengePeriodNotOver,
    /// The voucher's signature does not verify under the employer's key.
    InvalidSignature,
    /// No session is stored under the channel id.
    UnknownSession,
}

impl SessionError {
    /// The text of the message with which the call is refused; for an
    /// unknown session, the decoding error that reading its storage meets.
    pub open spec fn spec_message(self) -> Seq<char> {
        match self {
            SessionError::ZeroDeposit => "Zero deposit not allowed"@,
            SessionError::DeadlineInPast => "Deadline must be in the future"@,
            SessionError::AlreadyClosed => "Session already closed"@,
            SessionError::InvalidToken => "Invalid token"@,
            SessionError::StaleVoucher => "Stale voucher nonce"@,
            SessionError::InvalidAmount => "Invalid settlement amount"@,
            SessionError::InsufficientFunds => "Insufficient funds in session"@,
            SessionError::NotEmployer => "Only employer can request close"@,
            SessionError::ChallengePeriodNotOver => "Challenge period not over"@,
            SessionError::InvalidSignature => "ed25519 verify error"@,
            SessionError::UnknownSession => "input too short"@,
        }
    }

    /// The message with which the call is refused.
    pub fn message(&self) -> (r: &'static str)
        ensures
            r@ == self.spec_message(),
    {
        match self {
            SessionError::ZeroDeposit => "Zero deposit not allowed",
            SessionError::DeadlineInPast => "Deadline must be in the future",
            SessionError::AlreadyClosed => "Session already closed",
            SessionError::InvalidToken => "Invalid token",
            SessionError::StaleVoucher => "Stale voucher nonce",
            SessionError::InvalidAmount => "Invalid settlement amount",
            SessionError::InsufficientFunds => "Insufficient funds in session",
            SessionError::NotEmployer => "Only employer can request close",
            SessionError::ChallengePeriodNotOver => "Challenge period not over",
            SessionError::InvalidSignature => "ed25519 verify error",
            SessionError::UnknownSession => "input too short",
        }
    }
}

/// The 4-byte big-endian form of `n`.
pub open spec fn u32_be(n: u32) -> Seq<u8> {
    seq![
        ((n >> 24u32) & 0xffu32) as u8,
        ((n >> 16u32) & 0xffu32) as u8,
        ((n >> 8u32) & 0xffu32) as u8,
        (n & 0xffu32) as u8,
    ]
}

/// The storage key of the session stored under `channel_id`: the bytes of
/// "sessions" followed by the channel id as a nested value, its length in
/// 4 big-endian bytes and then its bytes.
pub open spec fn session_storage_key(channel_id: Seq<u8>) -> Seq<u8> {
    "sessions".spec_bytes() + u32_be(channel_id.len() as u32) + channel_id
}

/// The bytes of the message with which a call on `channel_id` is refused
/// for `e`. For an unknown session it is the storage decoding error, which
/// names the storage key.
pub open spec fn refusal_message(e: SessionError, channel_id: Seq<u8>) -> Seq<u8> {
    match e {
        SessionError::UnknownSession => "storage decode error (key: ".spec_bytes() + session_storage_key(channel_id)
            + "): ".spec_bytes() + e.spec_message_bytes(),
        _ => e.spec_message_bytes(),
    }
}

impl SessionError {
    /// The bytes of the message text.
    pub open spec fn spec_message_bytes(self) -> Seq<u8> {
        match self {
            SessionError::ZeroDeposit => "Zero deposit not allowed".spec_bytes(),
            SessionError::DeadlineInPast => "Deadline must be in the future".spec_bytes(),
            SessionError::AlreadyClosed => "Session already closed".spec_bytes(),
            SessionError::InvalidToken => "Invalid token".spec_bytes(),
            SessionError::StaleVoucher => "Stale voucher nonce".spec_bytes(),
            SessionError::InvalidAmount => "Invalid settlement amount".spec_bytes(),
            SessionError::InsufficientFunds => "Insufficient funds in session".spec_bytes(),
            SessionError::NotEmployer => "Only employer can request close".spec_bytes(),
            SessionError::ChallengePeriodNotOver => "Challenge period not over".spec_bytes(),
            SessionError::InvalidSignature => "ed25519 verify error".spec_bytes(),
            SessionError::UnknownSession => "input too short".spec_bytes(),
        }
    }

    /// The bytes of the message with which a call on `channel_id` is
    /// refused: the message text, and for an unknown session the storage
    /// decoding error that names the session's storage key.
    pub fn refusal_message(&self, channel_id: &[u8]) -> (r: Vec<u8>)
        ensures
            r@ == refusal_message(*self, channel_id@),
    {
        let mut out: Vec<u8> = Vec::new();
        match self {
            SessionError::UnknownSession => {
                append_bytes(&mut out, "storage decode error (key: ".as_bytes());
                append_bytes(&mut out, "sessions".as_bytes());
                let len = channel_id.len() as u32;
                out.push(((len >> 24u32) & 0xffu32) as u8);
                out.push(((len >> 16u32) & 0xffu32) as u8);
                out.push(((len >> 8u32) & 0xffu32) as u8);
                out.push((len & 0xffu32) as u8);
                append_bytes(&mut out, channel_id);
                append_bytes(&mut out, "): ".as_bytes());
                append_bytes(&mut out, self.message().as_bytes());
                assert(out@ =~= refusal_message(*self, channel_id@));
            },
            _ => {
                append_bytes(&mut out, self.message().as_bytes());
                assert(out@ =~= refusal_message(*self, channel_id@));
            },
        }
        out
    }
}

} // verus!
