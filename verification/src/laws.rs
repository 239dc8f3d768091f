use vstd::prelude::*;

use crate::contract::pays_release_and_refund;
use crate::encoding::{amount_be, channel_id_message, domain_prefix, u64_be, voucher_message};
use crate::session::{
    close_outcome, escrow, open_outcome, request_close_outcome, session_wf, settle_outcome,
    top_up_outcome,
};
use crate::types::{SessionError, SessionView, TokenView, Transfer, STATUS_CLOSED, STATUS_OPEN};

verus! {

/// The sum of the amounts of `transfers`.
pub open spec fn total_paid(transfers: Seq<Transfer>) -> int
    decreases transfers.len(),
{
    if transfers.len() == 0 {
        0
    } else {
        total_paid(transfers.drop_last()) + transfers.last().amount@
    }
}

/// Whether two sessions have the same parties, token and deadline.
pub open spec fn same_terms(a: SessionView, b: SessionView) -> bool {
    &&& a.employer == b.employer
    &&& a.receiver == b.receiver
    &&& a.token == b.token
    &&& a.deadline == b.deadline
}

/// Every transition keeps a session well formed: open or closed, never
/// settled beyond its escrow. A session that opening creates is well
/// formed.
pub proof fn law_transitions_keep_sessions_well_formed(
    s: SessionView,
    employer: Seq<u8>,
    receiver: Seq<u8>,
    token: TokenView,
    amount: nat,
    nonce: u64,
    signature_ok: bool,
    caller: Seq<u8>,
    deadline: u64,
    now: u64,
)
    requires
        session_wf(s),
    ensures
        open_outcome(employer, receiver, token, amount, deadline, now) matches Ok(n) ==> session_wf(n),
        top_up_outcome(s, token, amount) matches Ok(n) ==> session_wf(n),
        settle_outcome(s, amount, nonce, signature_ok) matches Ok((n, _)) ==> session_wf(n),
        close_outcome(s, amount, nonce, signature_ok) matches Ok((n, _, _)) ==> session_wf(n),
        request_close_outcome(s, caller, now) matches Ok((n, _)) ==> session_wf(n),
{
}

/// Escrow is conserved: opening escrows the payment; a top-up adds the
/// payment to the escrow; settling releases to the receiver exactly what
/// leaves the escrow, and that is more than zero; closing, by voucher or
/// by the employer after the deadline, pays out the whole escrow and leaves
/// none.
pub proof fn law_escrow_is_conserved(
    s: SessionView,
    employer: Seq<u8>,
    receiver: Seq<u8>,
    token: TokenView,
    amount: nat,
    nonce: u64,
    signature_ok: bool,
    caller: Seq<u8>,
    deadline: u64,
    now: u64,
)
    requires
        session_wf(s),
    ensures
        open_outcome(employer, receiver, token, amount, deadline, now) matches Ok(n) ==> escrow(n) == amount,
        top_up_outcome(s, token, amount) matches Ok(n) ==> escrow(n) == escrow(s) + amount,
        settle_outcome(s, amount, nonce, signature_ok) matches Ok((n, release)) ==> escrow(s) == escrow(n)
            + release && release > 0,
        close_outcome(s, amount, nonce, signature_ok) matches Ok((n, release, refund)) ==> escrow(s)
            == release + refund && escrow(n) == 0,
        request_close_outcome(s, caller, now) matches Ok((n, refund)) ==> escrow(s) == refund && escrow(
            n,
        ) == 0,
{
}

/// The transfers that closing lists pay out exactly the release and the
/// refund, and none of them is for zero.
pub proof fn law_close_transfers_sum_to_payout(
    transfers: Seq<Transfer>,
    receiver: Seq<u8>,
    employer: Seq<u8>,
    token: TokenView,
    release: nat,
    refund: nat,
)
    requires
        pays_release_and_refund(transfers, receiver, employer, token, release, refund),
    ensures
        total_paid(transfers) == release + refund,
        forall|i: int| 0 <= i < transfers.len() ==> #[trigger] transfers[i].amount@ > 0,
{
    reveal_with_fuel(total_paid, 3);
    if transfers.len() == 2 {
        assert(transfers.drop_last().drop_last().len() == 0);
    }
    if transfers.len() == 1 {
        assert(transfers.drop_last().len() == 0);
    }
}

/// Nothing moves backwards and the terms never change: the escrow never
/// shrinks, and the settled amount and the voucher nonce never decrease.
pub proof fn law_transitions_are_monotone(
    s: SessionView,
    token: TokenView,
    amount: nat,
    nonce: u64,
    signature_ok: bool,
    caller: Seq<u8>,
    now: u64,
)
    ensures
        top_up_outcome(s, token, amount) matches Ok(n) ==> same_terms(s, n) && n.amount_locked
            >= s.amount_locked && n.amount_settled == s.amount_settled && n.nonce == s.nonce,
        settle_outcome(s, amount, nonce, signature_ok) matches Ok((n, _)) ==> same_terms(s, n)
            && n.amount_locked == s.amount_locked && n.amount_settled > s.amount_settled && n.nonce
            > s.nonce,
        close_outcome(s, amount, nonce, signature_ok) matches Ok((n, _, _)) ==> same_terms(s, n)
            && n.amount_locked == s.amount_locked && n.amount_settled >= s.amount_settled && n.nonce
            >= s.nonce,
        request_close_outcome(s, caller, now) matches Ok((n, _)) ==> same_terms(s, n)
            && n.amount_locked == s.amount_locked && n.amount_settled == s.amount_settled && n.nonce
            == s.nonce,
{
}

/// Closing is final: every transition of a session that is not open is
/// refused as already closed, and every closing leaves the session closed.
pub proof fn law_closed_is_final(
    s: SessionView,
    token: TokenView,
    amount: nat,
    nonce: u64,
    signature_ok: bool,
    caller: Seq<u8>,
    now: u64,
)
    ensures
        s.status != STATUS_OPEN ==> {
            &&& top_up_outcome(s, token, amount) == Err::<SessionView, SessionError>(SessionError::AlreadyClosed)
            &&& settle_outcome(s, amount, nonce, signature_ok) == Err::<(SessionView, nat), SessionError>(
                SessionError::AlreadyClosed,
            )
            &&& close_outcome(s, amount, nonce, signature_ok) == Err::<(SessionView, nat, nat), SessionError>(
                SessionError::AlreadyClosed,
            )
            &&& request_close_outcome(s, caller, now) == Err::<(SessionView, nat), SessionError>(
                SessionError::AlreadyClosed,
            )
        },
        close_outcome(s, amount, nonce, signature_ok) matches Ok((n, _, _)) ==> n.status == STATUS_CLOSED,
        request_close_outcome(s, caller, now) matches Ok((n, _)) ==> n.status == STATUS_CLOSED,
{
}

/// A voucher cannot be replayed: once a voucher with nonce `nonce` is
/// settled, no voucher with that nonce or an older one settles again.
pub proof fn law_vouchers_cannot_be_replayed(
    s: SessionView,
    amount: nat,
    nonce: u64,
    signature_ok: bool,
    later_amount: nat,
    later_nonce: u64,
    later_signature_ok: bool,
)
    requires
        settle_outcome(s, amount, nonce, signature_ok) is Ok,
        later_nonce <= nonce,
    ensures
        settle_outcome(s, amount, nonce, signature_ok) matches Ok((n, _)) && settle_outcome(
            n,
            later_amount,
            later_nonce,
            later_signature_ok,
        ) is Err,
{
}

/// Only the employer can reclaim the escrow, and only once the deadline is
/// reached.
pub proof fn law_only_employer_reclaims_after_deadline(s: SessionView, caller: Seq<u8>, now: u64)
    ensures
        request_close_outcome(s, caller, now) is Ok ==> caller == s.employer && now >= s.deadline,
{
}

/// Settling vouchers in turn, each with a valid signature, and what the
/// receiver is released in all; `None` when one of them is refused.
pub open spec fn settle_all(s: SessionView, vouchers: Seq<(nat, u64)>) -> Option<(SessionView, int)>
    decreases vouchers.len(),
{
    if vouchers.len() == 0 {
        Some((s, 0))
    } else {
        match settle_all(s, vouchers.drop_last()) {
            None => None,
            Some((mid, released)) => match settle_outcome(mid, vouchers.last().0, vouchers.last().1, true) {
                Err(_) => None,
                Ok((next, release)) => Some((next, released + release)),
            },
        }
    }
}

/// Vouchers are cumulative: whatever vouchers are settled in turn, the
/// receiver is released in all exactly the growth of the settled amount,
/// which is the amount of the last voucher minus what was settled before.
pub proof fn law_vouchers_are_cumulative(s: SessionView, vouchers: Seq<(nat, u64)>)
    requires
        settle_all(s, vouchers) is Some,
    ensures
        settle_all(s, vouchers) matches Some((n, released)) && released == n.amount_settled - s.amount_settled,
        vouchers.len() > 0 ==> (settle_all(s, vouchers) matches Some((n, _)) && n.amount_settled
            == vouchers.last().0),
        settle_all(s, vouchers) matches Some((n, _)) && n.amount_locked == s.amount_locked && same_terms(s, n)
            && n.status == s.status,
    decreases vouchers.len(),
{
    if vouchers.len() > 0 {
        law_vouchers_are_cumulative(s, vouchers.drop_last());
    }
}

/// A successful call on an open session before it closes: a top-up with
/// a payment in a token, or the settlement of a voucher for a cumulative
/// amount with a nonce.
pub enum SessionStep {
    TopUp(TokenView, nat),
    Settle(nat, u64),
}

/// Applying calls in turn, each with a valid signature, and what they
/// released to the receiver and added to the escrow in all; `None` when
/// one of them is refused.
pub open spec fn apply_steps(s: SessionView, steps: Seq<SessionStep>) -> Option<(SessionView, nat, nat)>
    decreases steps.len(),
{
    if steps.len() == 0 {
        Some((s, 0, 0))
    } else {
        match apply_steps(s, steps.drop_last()) {
            None => None,
            Some((mid, released, added)) => match steps.last() {
                SessionStep::TopUp(token, amount) => match top_up_outcome(mid, token, amount) {
                    Err(_) => None,
                    Ok(next) => Some((next, released, added + amount)),
                },
                SessionStep::Settle(amount, nonce) => match settle_outcome(mid, amount, nonce, true) {
                    Err(_) => None,
                    Ok((next, release)) => Some((next, released + release, added)),
                },
            },
        }
    }
}

/// Top-ups and settlements in any order keep the session open with its
/// terms; what was released in all is the growth of the settled amount, and
/// what was added in all is the growth of the escrow.
pub proof fn law_steps_account_for_all_movements(s: SessionView, steps: Seq<SessionStep>)
    requires
        apply_steps(s, steps) is Some,
    ensures
        apply_steps(s, steps) matches Some((n, released, added)) && {
            &&& released == n.amount_settled - s.amount_settled
            &&& n.amount_locked == s.amount_locked + added
            &&& same_terms(s, n)
            &&& n.status == s.status
        },
    decreases steps.len(),
{
    if steps.len() > 0 {
        law_steps_account_for_all_movements(s, steps.drop_last());
    }
}

/// Over a whole session the receiver gets exactly the final voucher and the
/// employer the rest: from a fresh session, top-ups and settlements in any
/// order followed by closing with a final voucher for `amount` release
/// `amount` to the receiver in all, refund the escrow with all top-ups less
/// `amount` to the employer, and so pay out everything that was escrowed.
pub proof fn law_whole_session_receipts(s: SessionView, steps: Seq<SessionStep>, amount: nat, nonce: u64)
    requires
        s.amount_settled == 0,
        apply_steps(s, steps) matches Some((mid, _, _)) && close_outcome(mid, amount, nonce, true) is Ok,
    ensures
        apply_steps(s, steps) matches Some((mid, released, added)) && close_outcome(mid, amount, nonce, true)
            matches Ok((n, release, refund)) && {
            &&& released + release == amount
            &&& refund == s.amount_locked + added - amount
            &&& released + release + refund == s.amount_locked + added
            &&& n.status == STATUS_CLOSED
        },
{
    law_steps_account_for_all_movements(s, steps);
}

/// Two amounts with the same shortest big-endian form are equal.
pub proof fn lemma_amount_be_injective(a: nat, b: nat)
    requires
        amount_be(a) == amount_be(b),
    ensures
        a == b,
    decreases a,
{
    if a == 0 {
        if b != 0 {
            assert(amount_be(b).len() > 0);
        }
    } else {
        if b == 0 {
            assert(amount_be(a).len() > 0);
        } else {
            assert(amount_be(a).drop_last() =~= amount_be(a / 256));
            assert(amount_be(b).drop_last() =~= amount_be(b / 256));
            lemma_amount_be_injective(a / 256, b / 256);
            assert(amount_be(a).last() == (a % 256) as u8);
            assert(amount_be(b).last() == (b % 256) as u8);
        }
    }
}

/// Two nonces with the same 8-byte big-endian form are equal.
pub proof fn lemma_u64_be_injective(a: u64, b: u64)
    requires
        u64_be(a) == u64_be(b),
    ensures
        a == b,
{
    let sa = u64_be(a);
    let sb = u64_be(b);
    assert(sa[0] == sb[0] && sa[1] == sb[1] && sa[2] == sb[2] && sa[3] == sb[3]);
    assert(sa[4] == sb[4] && sa[5] == sb[5] && sa[6] == sb[6] && sa[7] == sb[7]);
    assert(a == b) by (bit_vector)
        requires
            ((a >> 56u64) & 0xffu64) as u8 == ((b >> 56u64) & 0xffu64) as u8,
            ((a >> 48u64) & 0xffu64) as u8 == ((b >> 48u64) & 0xffu64) as u8,
            ((a >> 40u64) & 0xffu64) as u8 == ((b >> 40u64) & 0xffu64) as u8,
            ((a >> 32u64) & 0xffu64) as u8 == ((b >> 32u64) & 0xffu64) as u8,
            ((a >> 24u64) & 0xffu64) as u8 == ((b >> 24u64) & 0xffu64) as u8,
            ((a >> 16u64) & 0xffu64) as u8 == ((b >> 16u64) & 0xffu64) as u8,
            ((a >> 8u64) & 0xffu64) as u8 == ((b >> 8u64) & 0xffu64) as u8,
            (a & 0xffu64) as u8 == (b & 0xffu64) as u8,
    ;
}

/// A signed voucher binds everything it is about: with a 32-byte contract
/// address and a 32-byte channel id, the voucher message determines the
/// contract, the channel, the amount and the nonce, and it starts with the
/// domain prefix.
pub proof fn law_voucher_binds_contract_channel_amount_nonce(
    sc_a: Seq<u8>,
    channel_a: Seq<u8>,
    amount_a: nat,
    nonce_a: u64,
    sc_b: Seq<u8>,
    channel_b: Seq<u8>,
    amount_b: nat,
    nonce_b: u64,
)
    requires
        sc_a.len() == 32,
        sc_b.len() == 32,
        channel_a.len() == 32,
        channel_b.len() == 32,
        voucher_message(sc_a, channel_a, amount_a, nonce_a) == voucher_message(sc_b, channel_b, amount_b, nonce_b),
    ensures
        sc_a == sc_b,
        channel_a == channel_b,
        amount_a == amount_b,
        nonce_a == nonce_b,
        voucher_message(sc_a, channel_a, amount_a, nonce_a).subrange(0, 14) == domain_prefix(),
{
    let ma = voucher_message(sc_a, channel_a, amount_a, nonce_a);
    let mb = voucher_message(sc_b, channel_b, amount_b, nonce_b);
    let la: int = amount_be(amount_a).len() as int;
    let lb: int = amount_be(amount_b).len() as int;
    assert(ma.len() == 14 + 32 + 32 + la + 8);
    assert(mb.len() == 14 + 32 + 32 + lb + 8);
    assert(ma.subrange(14, 46) =~= sc_a);
    assert(mb.subrange(14, 46) =~= sc_b);
    assert(ma.subrange(46, 78) =~= channel_a);
    assert(mb.subrange(46, 78) =~= channel_b);
    assert(ma.subrange(78, 78 + la) =~= amount_be(amount_a));
    assert(mb.subrange(78, 78 + lb) =~= amount_be(amount_b));
    assert(ma.subrange(78 + la, 86 + la) =~= u64_be(nonce_a));
    assert(mb.subrange(78 + lb, 86 + lb) =~= u64_be(nonce_b));
    lemma_amount_be_injective(amount_a, amount_b);
    lemma_u64_be_injective(nonce_a, nonce_b);
    assert(ma.subrange(0, 14) =~= domain_prefix());
}

/// Channel ids are derived from distinct inputs: with 32-byte addresses,
/// the message hashed into a channel id determines the employer, the
/// receiver and the employer's channel number, so each channel an employer
/// opens hashes a message of its own.
pub proof fn law_channel_message_determines_its_inputs(
    employer_a: Seq<u8>,
    receiver_a: Seq<u8>,
    nonce_a: u64,
    employer_b: Seq<u8>,
    receiver_b: Seq<u8>,
    nonce_b: u64,
)
    requires
        employer_a.len() == 32,
        employer_b.len() == 32,
        receiver_a.len() == 32,
        receiver_b.len() == 32,
        channel_id_message(employer_a, receiver_a, nonce_a) == channel_id_message(employer_b, receiver_b, nonce_b),
    ensures
        employer_a == employer_b,
        receiver_a == receiver_b,
        nonce_a == nonce_b,
{
    let ma = channel_id_message(employer_a, receiver_a, nonce_a);
    let mb = channel_id_message(employer_b, receiver_b, nonce_b);
    assert(ma.subrange(0, 32) =~= employer_a);
    assert(mb.subrange(0, 32) =~= employer_b);
    assert(ma.subrange(32, 64) =~= receiver_a);
    assert(mb.subrange(32, 64) =~= receiver_b);
    assert(ma.subrange(64, 72) =~= u64_be(nonce_a));
    assert(mb.subrange(64, 72) =~= u64_be(nonce_b));
    lemma_u64_be_injective(nonce_a, nonce_b);
}

/// Opening succeeds exactly when the deposit is not zero and the deadline
/// lies after the current time, whatever the size of the deposit; the new
/// session escrows the whole deposit, has settled nothing, accepts any
/// voucher nonce above zero, and is open.
pub proof fn law_open_succeeds_exactly_when_funded_and_in_time(
    employer: Seq<u8>,
    receiver: Seq<u8>,
    token: TokenView,
    amount: nat,
    deadline: u64,
    now: u64,
)
    ensures
        open_outcome(employer, receiver, token, amount, deadline, now) is Ok <==> (amount > 0 && deadline > now),
        amount == 0 ==> open_outcome(employer, receiver, token, amount, deadline, now) == Err::<SessionView, SessionError>(
            SessionError::ZeroDeposit,
        ),
        open_outcome(employer, receiver, token, amount, deadline, now) matches Ok(n) ==> {
            &&& n.employer == employer
            &&& n.receiver == receiver
            &&& n.token == token
            &&& n.amount_locked == amount
            &&& n.amount_settled == 0
            &&& n.nonce == 0
            &&& n.deadline == deadline
            &&& n.status == STATUS_OPEN
        },
{
}

/// A top-up succeeds exactly when the session is open, the payment is in the
/// session's token (the native coin or any fungible token) and is not
/// zero, whatever its size; it adds the whole payment to the escrow and
/// changes nothing else.
pub proof fn law_top_up_succeeds_exactly_when_open_same_token_nonzero(s: SessionView, token: TokenView, amount: nat)
    ensures
        top_up_outcome(s, token, amount) is Ok <==> (s.status == STATUS_OPEN && token == s.token && amount > 0),
        top_up_outcome(s, token, amount) matches Ok(n) ==> {
            &&& n.amount_locked == s.amount_locked + amount
            &&& n.amount_settled == s.amount_settled
            &&& n.nonce == s.nonce
            &&& n.status == s.status
            &&& same_terms(s, n)
        },
{
}

/// Settling a validly signed voucher succeeds exactly when the session is
/// open, the voucher's nonce is above the last one accepted (any nonce of
/// 64 bits) and its amount is above what was settled and within the
/// escrow, whatever its size; it releases the difference to the receiver
/// and records the voucher's amount and nonce. Without a valid signature it
/// never succeeds.
pub proof fn law_settle_succeeds_exactly_when_newer_larger_and_covered(
    s: SessionView,
    amount: nat,
    nonce: u64,
    signature_ok: bool,
)
    ensures
        settle_outcome(s, amount, nonce, signature_ok) is Ok <==> (s.status == STATUS_OPEN && signature_ok
            && nonce > s.nonce && s.amount_settled < amount && amount <= s.amount_locked),
        settle_outcome(s, amount, nonce, signature_ok) matches Ok((n, release)) ==> {
            &&& release == amount - s.amount_settled
            &&& n.amount_settled == amount
            &&& n.nonce == nonce
            &&& n.amount_locked == s.amount_locked
            &&& n.status == STATUS_OPEN
            &&& same_terms(s, n)
        },
{
}

/// Closing with a validly signed voucher succeeds exactly when the session
/// is open, the voucher's nonce is at least the last one accepted and its
/// amount lies between what was settled and the escrow, whatever its size;
/// it releases to the receiver what the voucher adds, refunds the rest of
/// the escrow to the employer, and closes the session. Without a valid
/// signature it never succeeds.
pub proof fn law_close_succeeds_exactly_when_newer_and_within_escrow(
    s: SessionView,
    amount: nat,
    nonce: u64,
    signature_ok: bool,
)
    ensures
        close_outcome(s, amount, nonce, signature_ok) is Ok <==> (s.status == STATUS_OPEN && signature_ok
            && nonce >= s.nonce && s.amount_settled <= amount && amount <= s.amount_locked),
        close_outcome(s, amount, nonce, signature_ok) matches Ok((n, release, refund)) ==> {
            &&& release == amount - s.amount_settled
            &&& refund == s.amount_locked - amount
            &&& n.amount_settled == amount
            &&& n.nonce == nonce
            &&& n.amount_locked == s.amount_locked
            &&& n.status == STATUS_CLOSED
            &&& same_terms(s, n)
        },
{
}

/// The employer's reclaim succeeds exactly when the session is open, the
/// caller is its employer and the deadline has been reached, however long
/// ago; it refunds the whole unsettled escrow and closes the session.
pub proof fn law_request_close_succeeds_exactly_when_employer_after_deadline(
    s: SessionView,
    caller: Seq<u8>,
    now: u64,
)
    requires
        s.amount_settled <= s.amount_locked,
    ensures
        request_close_outcome(s, caller, now) is Ok <==> (s.status == STATUS_OPEN && caller == s.employer && now
            >= s.deadline),
        request_close_outcome(s, caller, now) matches Ok((n, refund)) ==> {
            &&& refund == s.amount_locked - s.amount_settled
            &&& n.amount_settled == s.amount_settled
            &&& n.nonce == s.nonce
            &&& n.amount_locked == s.amount_locked
            &&& n.status == STATUS_CLOSED
            &&& same_terms(s, n)
        },
{
}

} // verus!
