use vstd::prelude::*;

use crate::amount::Amount;
use crate::crypto::{ed25519_accepts, keccak256, keccak256_digest, verify_ed25519};
use crate::encoding::{build_voucher_message, next_channel, channel_id_message, voucher_message};
use crate::session::{
    close_outcome, close_session, new_session, open_outcome, request_close_outcome,
    request_close_session, session_wf, settle_outcome, settle_session, top_up_outcome,
    top_up_session,
};
use crate::store::ByteKeyMap;
use crate::types::{
    copy_bytes, Address, Payment, SessionData, SessionError, SessionEvent, SessionView, TokenId,
    TokenView, Transfer,
};

verus! {

/// What the contract stores: its own address, the sessions by channel id,
/// each employer's count of opened channels, and the id of the last channel
/// opened.
pub struct ContractView {
    pub sc_address: Seq<u8>,
    pub sessions: Map<Seq<u8>, SessionView>,
    pub channel_nonces: Map<Seq<u8>, u64>,
    pub last_id: Seq<u8>,
}

/// How many channels `employer` has opened so far.
pub open spec fn channel_count(c: ContractView, employer: Seq<u8>) -> u64 {
    if c.channel_nonces.contains_key(employer) {
        c.channel_nonces[employer]
    } else {
        0
    }
}

/// Whether `signature` is the employer's signature of the voucher for
/// `amount` and `nonce` on `channel_id` at the contract `sc_address`: an
/// Ed25519 signature, under the employer's address as public key, of the
/// Keccak-256 digest of the voucher message.
pub open spec fn voucher_signed(
    sc_address: Seq<u8>,
    channel_id: Seq<u8>,
    amount: nat,
    nonce: u64,
    signature: Seq<u8>,
    employer: Seq<u8>,
) -> bool {
    ed25519_accepts(employer, keccak256_digest(voucher_message(sc_address, channel_id, amount, nonce)), signature)
}

/// The id of the channel that `employer` opens for `receiver` as its
/// `channel_nonce`-th channel.
pub open spec fn channel_id_of(employer: Seq<u8>, receiver: Seq<u8>, channel_nonce: u64) -> Seq<u8> {
    keccak256_digest(channel_id_message(employer, receiver, channel_nonce))
}

/// The contract with the session stored under `channel_id` replaced by `s`.
pub open spec fn with_session(c: ContractView, channel_id: Seq<u8>, s: SessionView) -> ContractView {
    ContractView { sessions: c.sessions.insert(channel_id, s), ..c }
}

/// Whether `transfers` pays, in this order, `release` to `receiver` and
/// `refund` to `employer` in `token`, leaving out a zero amount.
pub open spec fn pays_release_and_refund(
    transfers: Seq<Transfer>,
    receiver: Seq<u8>,
    employer: Seq<u8>,
    token: TokenView,
    release: nat,
    refund: nat,
) -> bool {
    if release > 0 && refund > 0 {
        &&& transfers.len() == 2
        &&& transfers[0].pays(receiver, token, release)
        &&& transfers[1].pays(employer, token, refund)
    } else if release > 0 {
        &&& transfers.len() == 1
        &&& transfers[0].pays(receiver, token, release)
    } else if refund > 0 {
        &&& transfers.len() == 1
        &&& transfers[0].pays(employer, token, refund)
    } else {
        transfers.len() == 0
    }
}

/// The payment-session contract: its storage and its endpoints. Each
/// endpoint either succeeds, changing the storage and returning the
/// transfers and the event it makes, or is refused and changes nothing.
pub struct MppSessionContract {
    sc_address: Address,
    sessions: ByteKeyMap<SessionData>,
    channel_nonces: ByteKeyMap<u64>,
    last_id: Vec<u8>,
}

impl View for MppSessionContract {
    type V = ContractView;

    closed spec fn view(&self) -> ContractView {
        ContractView {
            sc_address: self.sc_address@,
            sessions: self.sessions@,
            channel_nonces: self.channel_nonces@,
            last_id: self.last_id@,
        }
    }
}

impl MppSessionContract {
    /// The storage is consistent and every stored session is well formed.
    pub closed spec fn wf(self) -> bool {
        &&& self.sessions.wf()
        &&& self.channel_nonces.wf()
        &&& forall|k: Seq<u8>| #[trigger] self.sessions@.contains_key(k) ==> session_wf(self.sessions@[k])
    }

    /// Every stored session is open or closed, escrows more than zero, and
    /// has settled no more than it escrows.
    pub proof fn lemma_stored_sessions_well_formed(self)
        requires
            self.wf(),
        ensures
            forall|k: Seq<u8>| #[trigger] self@.sessions.contains_key(k) ==> session_wf(self@.sessions[k]),
    {
    }

    /// Deploys the contract at `sc_address`, with no sessions.
    pub fn init(sc_address: Address) -> (r: MppSessionContract)
        ensures
            r.wf(),
            r@.sc_address == sc_address@,
            r@.sessions == Map::<Seq<u8>, SessionView>::empty(),
            r@.channel_nonces == Map::<Seq<u8>, u64>::empty(),
            r@.last_id == Seq::<u8>::empty(),
    {
        MppSessionContract {
            sc_address,
            sessions: ByteKeyMap::new(),
            channel_nonces: ByteKeyMap::new(),
            last_id: Vec::new(),
        }
    }

    /// Upgrades the contract; the storage stays as it is.
    pub fn upgrade(&mut self)
        requires
            old(self).wf(),
        ensures
            final(self).wf(),
            final(self)@ == old(self)@,
    {
    }

    /// The contract's own address.
    pub fn sc_address(&self) -> (r: Address)
        ensures
            r@ == self@.sc_address,
    {
        self.sc_address
    }

    /// The session stored under `channel_id`, if any.
    pub fn sessions(&self, channel_id: &[u8]) -> (r: Option<SessionData>)
        requires
            self.wf(),
        ensures
            match r {
                Some(s) => self@.sessions.contains_key(channel_id@) && s@ == self@.sessions[channel_id@]
                    && session_wf(s@),
                None => !self@.sessions.contains_key(channel_id@),
            },
    {
        match self.sessions.get(channel_id) {
            Some(s) => Some(s.duplicate()),
            None => None,
        }
    }

    /// How many channels `employer` has opened.
    pub fn last_channel_nonce(&self, employer: &Address) -> (r: u64)
        requires
            self.wf(),
        ensures
            r == channel_count(self@, employer@),
    {
        match self.channel_nonces.get(employer.bytes.as_slice()) {
            Some(n) => *n,
            None => 0,
        }
    }

    /// The id of the last channel opened.
    pub fn last_id(&self) -> (r: Vec<u8>)
        ensures
            r@ == self@.last_id,
    {
        copy_bytes(self.last_id.as_slice())
    }

    /// The transfer of `amount` of `token` to `to`.
    pub fn send_tokens(to: &Address, token: &TokenId, amount: Amount) -> (r: Transfer)
        ensures
            r.pays(to@, token@, amount@),
    {
        Transfer { to: *to, token_identifier: token.duplicate(), amount }
    }

    /// Whether `signature` is the employer's signature of the voucher for
    /// `amount` and `nonce` on `channel_id` at this contract.
    pub fn verify_voucher(&self, channel_id: &[u8], amount: &Amount, nonce: u64, signature: &[u8], employer: &Address) -> (r: bool)
        ensures
            r == voucher_signed(self@.sc_address, channel_id@, amount@, nonce, signature@, employer@),
    {
        let message = build_voucher_message(&self.sc_address, channel_id, amount, nonce);
        let hash = keccak256(message.as_slice());
        verify_ed25519(employer.bytes.as_slice(), hash.as_slice(), signature)
    }

    /// Opens a session from `caller` to `receiver`, escrowing `payment`,
    /// reclaimable from `deadline` on; `now` is the block time. The channel
    /// id is the digest of the caller, the receiver and the caller's next
    /// channel number; it is returned and becomes the last id.
    pub fn open(&mut self, caller: &Address, payment: &Payment, now: u64, receiver: &Address, deadline: u64) -> (r: Result<
        (Vec<u8>, SessionEvent),
        SessionError,
    >)
        requires
            old(self).wf(),
            channel_count(old(self)@, caller@) < u64::MAX,
        ensures
            final(self).wf(),
            match open_outcome(caller@, receiver@, payment.token_identifier@, payment.amount@, deadline, now) {
                Err(e) => r == Err::<(Vec<u8>, SessionEvent), SessionError>(e) && final(self)@ == old(self)@,
                Ok(s) => r matches Ok((channel_id, event)) && {
                    let n = (channel_count(old(self)@, caller@) + 1) as u64;
                    &&& channel_id@ == channel_id_of(caller@, receiver@, n)
                    &&& final(self)@ == ContractView {
                        sessions: old(self)@.sessions.insert(channel_id@, s),
                        channel_nonces: old(self)@.channel_nonces.insert(caller@, n),
                        last_id: channel_id@,
                        ..old(self)@
                    }
                    &&& event.is_opened(channel_id@, caller@, receiver@, payment.token_identifier@, payment.amount@)
                },
            },
    {
        let session = match new_session(caller, receiver, payment, deadline, now) {
            Ok(s) => s,
            Err(e) => {
                return Err(e);
            },
        };
        let (channel_nonce, message) = next_channel(caller, receiver, self.last_channel_nonce(caller));
        self.channel_nonces.insert(caller.bytes.as_slice(), channel_nonce);
        let channel_id = keccak256(message.as_slice());
        self.sessions.insert(channel_id.as_slice(), session);
        self.last_id = copy_bytes(channel_id.as_slice());
        let event = SessionEvent::Opened {
            channel_id: copy_bytes(channel_id.as_slice()),
            employer: *caller,
            receiver: *receiver,
            token_identifier: payment.token_identifier.duplicate(),
            amount: payment.amount.duplicate(),
        };
        Ok((channel_id, event))
    }

    /// Adds `payment` to the escrow of the open session `channel_id`.
    pub fn top_up(&mut self, channel_id: &[u8], payment: &Payment) -> (r: Result<(), SessionError>)
        requires
            old(self).wf(),
        ensures
            final(self).wf(),
            !old(self)@.sessions.contains_key(channel_id@) ==> r == Err::<(), SessionError>(
                SessionError::UnknownSession,
            ) && final(self)@ == old(self)@,
            old(self)@.sessions.contains_key(channel_id@) ==> match top_up_outcome(
                old(self)@.sessions[channel_id@],
                payment.token_identifier@,
                payment.amount@,
            ) {
                Err(e) => r == Err::<(), SessionError>(e) && final(self)@ == old(self)@,
                Ok(s) => r is Ok && final(self)@ == with_session(old(self)@, channel_id@, s),
            },
    {
        let next = match self.sessions.get(channel_id) {
            None => {
                return Err(SessionError::UnknownSession);
            },
            Some(session) => top_up_session(session, payment),
        };
        match next {
            Err(e) => Err(e),
            Ok(s) => {
                self.sessions.insert(channel_id, s);
                Ok(())
            },
        }
    }

    /// Settles the voucher for the cumulative `amount` with `nonce` and
    /// `signature` on the open session `channel_id`, releasing to the
    /// receiver what the voucher adds to the amount already settled.
    pub fn settle(&mut self, channel_id: &[u8], amount: &Amount, nonce: u64, signature: &[u8]) -> (r: Result<
        (Transfer, SessionEvent),
        SessionError,
    >)
        requires
            old(self).wf(),
        ensures
            final(self).wf(),
            !old(self)@.sessions.contains_key(channel_id@) ==> r == Err::<(Transfer, SessionEvent), SessionError>(
                SessionError::UnknownSession,
            ) && final(self)@ == old(self)@,
            old(self)@.sessions.contains_key(channel_id@) ==> {
                let s = old(self)@.sessions[channel_id@];
                let signed = voucher_signed(old(self)@.sc_address, channel_id@, amount@, nonce, signature@, s.employer);
                match settle_outcome(s, amount@, nonce, signed) {
                    Err(e) => r == Err::<(Transfer, SessionEvent), SessionError>(e) && final(self)@ == old(self)@,
                    Ok((next, release)) => r matches Ok((transfer, event)) && {
                        &&& transfer.pays(s.receiver, s.token, release)
                        &&& event.is_settled(channel_id@, nonce, amount@)
                        &&& final(self)@ == with_session(old(self)@, channel_id@, next)
                    },
                }
            },
    {
        let session = match self.sessions.get(channel_id) {
            None => {
                return Err(SessionError::UnknownSession);
            },
            Some(session) => session.duplicate(),
        };
        let signed = if session.is_open() {
            self.verify_voucher(channel_id, amount, nonce, signature, &session.employer)
        } else {
            false
        };
        let (next, release) = match settle_session(&session, amount, nonce, signed) {
            Err(e) => {
                return Err(e);
            },
            Ok(p) => p,
        };
        let transfer = Self::send_tokens(&next.receiver, &next.token_identifier, release);
        self.sessions.insert(channel_id, next);
        let event = SessionEvent::Settled { channel_id: copy_bytes(channel_id), nonce, amount: amount.duplicate() };
        Ok((transfer, event))
    }

    /// Closes the open session `channel_id` with the final voucher for the
    /// cumulative `amount` with `nonce` and `signature`: the receiver gets
    /// what the voucher adds to the amount already settled, the employer
    /// gets the rest of the escrow.
    pub fn close(&mut self, channel_id: &[u8], amount: &Amount, nonce: u64, signature: &[u8]) -> (r: Result<
        (Vec<Transfer>, SessionEvent),
        SessionError,
    >)
        requires
            old(self).wf(),
        ensures
            final(self).wf(),
            !old(self)@.sessions.contains_key(channel_id@) ==> r == Err::<(Vec<Transfer>, SessionEvent), SessionError>(
                SessionError::UnknownSession,
            ) && final(self)@ == old(self)@,
            old(self)@.sessions.contains_key(channel_id@) ==> {
                let s = old(self)@.sessions[channel_id@];
                let signed = voucher_signed(old(self)@.sc_address, channel_id@, amount@, nonce, signature@, s.employer);
                match close_outcome(s, amount@, nonce, signed) {
                    Err(e) => r == Err::<(Vec<Transfer>, SessionEvent), SessionError>(e) && final(self)@ == old(self)@,
                    Ok((next, release, refund)) => r matches Ok((transfers, event)) && {
                        &&& pays_release_and_refund(transfers@, s.receiver, s.employer, s.token, release, refund)
                        &&& event.is_closed(channel_id@, amount@, refund)
                        &&& final(self)@ == with_session(old(self)@, channel_id@, next)
                    },
                }
            },
    {
        let session = match self.sessions.get(channel_id) {
            None => {
                return Err(SessionError::UnknownSession);
            },
            Some(session) => session.duplicate(),
        };
        let signed = if session.is_open() {
            self.verify_voucher(channel_id, amount, nonce, signature, &session.employer)
        } else {
            false
        };
        let (next, release, refund) = match close_session(&session, amount, nonce, signed) {
            Err(e) => {
                return Err(e);
            },
            Ok(p) => p,
        };
        let mut transfers: Vec<Transfer> = Vec::new();
        if !release.is_zero() {
            transfers.push(Self::send_tokens(&next.receiver, &next.token_identifier, release));
        }
        if !refund.is_zero() {
            transfers.push(Self::send_tokens(&next.employer, &next.token_identifier, refund.duplicate()));
        }
        let event = SessionEvent::Closed {
            channel_id: copy_bytes(channel_id),
            amount: next.amount_settled.duplicate(),
            refund_amount: refund,
        };
        self.sessions.insert(channel_id, next);
        Ok((transfers, event))
    }

    /// Closes the open session `channel_id` at the request of `caller`,
    /// who must be its employer, once the block time `now` has reached the
    /// deadline: the employer gets back the unsettled escrow.
    pub fn request_close(&mut self, channel_id: &[u8], caller: &Address, now: u64) -> (r: Result<
        (Vec<Transfer>, SessionEvent),
        SessionError,
    >)
        requires
            old(self).wf(),
        ensures
            final(self).wf(),
            !old(self)@.sessions.contains_key(channel_id@) ==> r == Err::<(Vec<Transfer>, SessionEvent), SessionError>(
                SessionError::UnknownSession,
            ) && final(self)@ == old(self)@,
            old(self)@.sessions.contains_key(channel_id@) ==> {
                let s = old(self)@.sessions[channel_id@];
                match request_close_outcome(s, caller@, now) {
                    Err(e) => r == Err::<(Vec<Transfer>, SessionEvent), SessionError>(e) && final(self)@ == old(self)@,
                    Ok((next, refund)) => r matches Ok((transfers, event)) && {
                        &&& pays_release_and_refund(transfers@, s.receiver, s.employer, s.token, 0, refund)
                        &&& event.is_closed(channel_id@, s.amount_settled, refund)
                        &&& final(self)@ == with_session(old(self)@, channel_id@, next)
                    },
                }
            },
    {
        let next = match self.sessions.get(channel_id) {
            None => {
                return Err(SessionError::UnknownSession);
            },
            Some(session) => request_close_session(session, caller, now),
        };
        let (next, refund) = match next {
            Err(e) => {
                return Err(e);
            },
            Ok(p) => p,
        };
        let mut transfers: Vec<Transfer> = Vec::new();
        if !refund.is_zero() {
            transfers.push(Self::send_tokens(&next.employer, &next.token_identifier, refund.duplicate()));
        }
        let event = SessionEvent::Closed {
            channel_id: copy_bytes(channel_id),
            amount: next.amount_settled.duplicate(),
            refund_amount: refund,
        };
        self.sessions.insert(channel_id, next);
        Ok((transfers, event))
    }
}

} // verus!
