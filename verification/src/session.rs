use vstd::prelude::*;

use crate::amount::Amount;
use crate::types::{
    Address, Payment, SessionData, SessionError, SessionView, TokenView, STATUS_CLOSED,
    STATUS_OPEN,
};

verus! {

/// A stored session is open or closed, escrows more than zero, and has
/// never settled more than it escrowed.
pub open spec fn session_wf(s: SessionView) -> bool {
    &&& s.status == STATUS_OPEN || s.status == STATUS_CLOSED
    &&& s.amount_locked > 0
    &&& s.amount_settled <= s.amount_locked
}

/// What a session still holds for its parties: the unsettled part of the
/// escrow while it is open, nothing once it is closed.
pub open spec fn escrow(s: SessionView) -> int {
    if s.status == STATUS_OPEN {
        s.amount_locked - s.amount_settled
    } else {
        0
    }
}

/// The session that opening creates, or why opening is refused.
pub open spec fn open_outcome(
    employer: Seq<u8>,
    receiver: Seq<u8>,
    token: TokenView,
    amount: nat,
    deadline: u64,
    now: u64,
) -> Result<SessionView, SessionError> {
    if amount == 0 {
        Err(SessionError::ZeroDeposit)
    } else if deadline <= now {
        Err(SessionError::DeadlineInPast)
    } else {
        Ok(
            SessionView {
                employer,
                receiver,
                token,
                amount_locked: amount,
                amount_settled: 0,
                nonce: 0,
                deadline,
                status: STATUS_OPEN,
            },
        )
    }
}

/// The session after a top-up, or why the top-up is refused.
pub open spec fn top_up_outcome(s: SessionView, token: TokenView, amount: nat) -> Result<SessionView, SessionError> {
    if s.status != STATUS_OPEN {
        Err(SessionError::AlreadyClosed)
    } else if token != s.token {
        Err(SessionError::InvalidToken)
    } else if amount == 0 {
        Err(SessionError::ZeroDeposit)
    } else {
        Ok(SessionView { amount_locked: s.amount_locked + amount, ..s })
    }
}

/// The session after settling a voucher for the cumulative `amount` with
/// `nonce`, and the amount released to the receiver; or why settling is
/// refused. `signature_ok` says whether the voucher's signature verifies.
pub open spec fn settle_outcome(s: SessionView, amount: nat, nonce: u64, signature_ok: bool) -> Result<
    (SessionView, nat),
    SessionError,
> {
    if s.status != STATUS_OPEN {
        Err(SessionError::AlreadyClosed)
    } else if !signature_ok {
        Err(SessionError::InvalidSignature)
    } else if nonce <= s.nonce {
        Err(SessionError::StaleVoucher)
    } else if amount <= s.amount_settled {
        Err(SessionError::InvalidAmount)
    } else if amount > s.amount_locked {
        Err(SessionError::InsufficientFunds)
    } else {
        Ok(
            (
                SessionView { amount_settled: amount, nonce, ..s },
                (amount - s.amount_settled) as nat,
            ),
        )
    }
}

/// The closed session after a final voucher for the cumulative `amount`
/// with `nonce`, the amount released to the receiver and the amount
/// refunded to the employer; or why closing is refused.
pub open spec fn close_outcome(s: SessionView, amount: nat, nonce: u64, signature_ok: bool) -> Result<
    (SessionView, nat, nat),
    SessionError,
> {
    if s.status != STATUS_OPEN {
        Err(SessionError::AlreadyClosed)
    } else if !signature_ok {
        Err(SessionError::InvalidSignature)
    } else if nonce < s.nonce {
        Err(SessionError::StaleVoucher)
    } else if amount < s.amount_settled {
        Err(SessionError::InvalidAmount)
    } else if amount > s.amount_locked {
        Err(SessionError::InsufficientFunds)
    } else {
        Ok(
            (
                SessionView { amount_settled: amount, nonce, status: STATUS_CLOSED, ..s },
                (amount - s.amount_settled) as nat,
                (s.amount_locked - amount) as nat,
            ),
        )
    }
}

/// The closed session after the employer reclaims the escrow, and the
/// amount refunded; or why reclaiming is refused.
pub open spec fn request_close_outcome(s: SessionView, caller: Seq<u8>, now: u64) -> Result<
    (SessionView, nat),
    SessionError,
> {
    if s.status != STATUS_OPEN {
        Err(SessionError::AlreadyClosed)
    } else if caller != s.employer {
        Err(SessionError::NotEmployer)
    } else if now < s.deadline {
        Err(SessionError::ChallengePeriodNotOver)
    } else {
        Ok(
            (
                SessionView { status: STATUS_CLOSED, ..s },
                (s.amount_locked - s.amount_settled) as nat,
            ),
        )
    }
}

/// A session result taken by its view.
pub open spec fn session_result_view(r: Result<SessionData, SessionError>) -> Result<SessionView, SessionError> {
    match r {
        Ok(d) => Ok(d@),
        Err(e) => Err(e),
    }
}

/// A session-and-amount result taken by its view.
pub open spec fn session_amount_view(r: Result<(SessionData, Amount), SessionError>) -> Result<
    (SessionView, nat),
    SessionError,
> {
    match r {
        Ok((d, x)) => Ok((d@, x@)),
        Err(e) => Err(e),
    }
}

/// A session-and-two-amounts result taken by its view.
pub open spec fn session_amounts_view(r: Result<(SessionData, Amount, Amount), SessionError>) -> Result<
    (SessionView, nat, nat),
    SessionError,
> {
    match r {
        Ok((d, x, y)) => Ok((d@, x@, y@)),
        Err(e) => Err(e),
    }
}

/// Opens a session for `employer` paying `receiver`, escrowing `payment`,
/// reclaimable by the employer from `deadline` on.
pub fn new_session(employer: &Address, receiver: &Address, payment: &Payment, deadline: u64, now: u64) -> (r: Result<
    SessionData,
    SessionError,
>)
    ensures
        session_result_view(r) == open_outcome(
            employer@,
            receiver@,
            payment.token_identifier@,
            payment.amount@,
            deadline,
            now,
        ),
{
    if payment.amount.is_zero() {
        return Err(SessionError::ZeroDeposit);
    }
    if deadline <= now {
        return Err(SessionError::DeadlineInPast);
    }
    Ok(
        SessionData {
            employer: *employer,
            receiver: *receiver,
            token_identifier: payment.token_identifier.duplicate(),
            amount_locked: payment.amount.duplicate(),
            amount_settled: Amount::zero(),
            nonce: 0,
            deadline,
            status: STATUS_OPEN,
        },
    )
}

/// Adds `payment` to the escrow of an open session in the same token.
pub fn top_up_session(session: &SessionData, payment: &Payment) -> (r: Result<SessionData, SessionError>)
    ensures
        session_result_view(r) == top_up_outcome(session@, payment.token_identifier@, payment.amount@),
{
    if !session.is_open() {
        return Err(SessionError::AlreadyClosed);
    }
    if !payment.token_identifier.same_as(&session.token_identifier) {
        return Err(SessionError::InvalidToken);
    }
    if payment.amount.is_zero() {
        return Err(SessionError::ZeroDeposit);
    }
    let mut next = session.duplicate();
    next.amount_locked = session.amount_locked.plus(&payment.amount);
    Ok(next)
}

/// Accepts a voucher for the cumulative `amount` with `nonce` on an open
/// session, and returns the session and the amount to release to the
/// receiver.
pub fn settle_session(session: &SessionData, amount: &Amount, nonce: u64, signature_ok: bool) -> (r: Result<
    (SessionData, Amount),
    SessionError,
>)
    ensures
        session_amount_view(r) == settle_outcome(session@, amount@, nonce, signature_ok),
{
    if !session.is_open() {
        return Err(SessionError::AlreadyClosed);
    }
    if !signature_ok {
        return Err(SessionError::InvalidSignature);
    }
    if nonce <= session.nonce {
        return Err(SessionError::StaleVoucher);
    }
    if !session.amount_settled.less_than(amount) {
        return Err(SessionError::InvalidAmount);
    }
    if session.amount_locked.less_than(amount) {
        return Err(SessionError::InsufficientFunds);
    }
    let to_release = amount.minus(&session.amount_settled);
    let mut next = session.duplicate();
    next.amount_settled = amount.duplicate();
    next.nonce = nonce;
    Ok((next, to_release))
}

/// Closes an open session with a final voucher for the cumulative `amount`
/// with `nonce`, and returns the session, the amount to release to the
/// receiver and the amount to refund to the employer.
pub fn close_session(session: &SessionData, amount: &Amount, nonce: u64, signature_ok: bool) -> (r: Result<
    (SessionData, Amount, Amount),
    SessionError,
>)
    ensures
        session_amounts_view(r) == close_outcome(session@, amount@, nonce, signature_ok),
{
    if !session.is_open() {
        return Err(SessionError::AlreadyClosed);
    }
    if !signature_ok {
        return Err(SessionError::InvalidSignature);
    }
    if nonce < session.nonce {
        return Err(SessionError::StaleVoucher);
    }
    if amount.less_than(&session.amount_settled) {
        return Err(SessionError::InvalidAmount);
    }
    if session.amount_locked.less_than(amount) {
        return Err(SessionError::InsufficientFunds);
    }
    let to_release = amount.minus(&session.amount_settled);
    let refund = session.amount_locked.minus(amount);
    let mut next = session.duplicate();
    next.amount_settled = amount.duplicate();
    next.nonce = nonce;
    next.status = STATUS_CLOSED;
    Ok((next, to_release, refund))
}

/// Closes an open session on the employer's request once the deadline is
/// reached, and returns the session and the amount to refund.
pub fn request_close_session(session: &SessionData, caller: &Address, now: u64) -> (r: Result<
    (SessionData, Amount),
    SessionError,
>)
    requires
        session@.amount_settled <= session@.amount_locked,
    ensures
        session_amount_view(r) == request_close_outcome(session@, caller@, now),
{
    if !session.is_open() {
        return Err(SessionError::AlreadyClosed);
    }
    if !caller.same_as(&session.employer) {
        return Err(SessionError::NotEmployer);
    }
    if now < session.deadline {
        return Err(SessionError::ChallengePeriodNotOver);
    }
    let refund = session.amount_locked.minus(&session.amount_settled);
    let mut next = session.duplicate();
    next.status = STATUS_CLOSED;
    Ok((next, refund))
}

} // verus!
