use vstd::prelude::*;

use crate::amount::Amount;
use crate::types::{append_bytes, Address};

verus! {

/// The 8-byte big-endian form of `n`.
pub open spec fn u64_be(n: u64) -> Seq<u8> {
    seq![
        ((n >> 56u64) & 0xffu64) as u8,
        ((n >> 48u64) & 0xffu64) as u8,
        ((n >> 40u64) & 0xffu64) as u8,
        ((n >> 32u64) & 0xffu64) as u8,
        ((n >> 24u64) & 0xffu64) as u8,
        ((n >> 16u64) & 0xffu64) as u8,
        ((n >> 8u64) & 0xffu64) as u8,
        (n & 0xffu64) as u8,
    ]
}

/// The shortest big-endian form of `n`: no leading zero byte, and no byte
/// at all for zero.
pub open spec fn amount_be(n: nat) -> Seq<u8>
    decreases n,
{
    if n == 0 {
        Seq::empty()
    } else {
        amount_be(n / 256).push((n % 256) as u8)
    }
}

/// The bytes of "mpp-session-v1", which open every signed voucher.
pub open spec fn domain_prefix() -> Seq<u8> {
    seq![109u8, 112u8, 112u8, 45u8, 115u8, 101u8, 115u8, 115u8, 105u8, 111u8, 110u8, 45u8, 118u8, 49u8]
}

/// What is hashed into a channel id: the employer, the receiver, and the
/// employer's channel counter in 8 big-endian bytes.
pub open spec fn channel_id_message(employer: Seq<u8>, receiver: Seq<u8>, channel_nonce: u64) -> Seq<u8> {
    employer + receiver + u64_be(channel_nonce)
}

/// What is hashed and signed in a voucher: the domain prefix, the
/// contract's address, the channel id, the cumulative amount in its
/// shortest big-endian form, and the voucher nonce in 8 big-endian bytes.
pub open spec fn voucher_message(sc_address: Seq<u8>, channel_id: Seq<u8>, amount: nat, nonce: u64) -> Seq<u8> {
    domain_prefix() + sc_address + channel_id + amount_be(amount) + u64_be(nonce)
}

/// The 8-byte big-endian form of `n`.
pub fn u64_to_be_bytes(n: u64) -> (r: Vec<u8>)
    ensures
        r@ == u64_be(n),
{
    let mut out: Vec<u8> = Vec::new();
    out.push(((n >> 56u64) & 0xffu64) as u8);
    out.push(((n >> 48u64) & 0xffu64) as u8);
    out.push(((n >> 40u64) & 0xffu64) as u8);
    out.push(((n >> 32u64) & 0xffu64) as u8);
    out.push(((n >> 24u64) & 0xffu64) as u8);
    out.push(((n >> 16u64) & 0xffu64) as u8);
    out.push(((n >> 8u64) & 0xffu64) as u8);
    out.push((n & 0xffu64) as u8);
    assert(out@ =~= u64_be(n));
    out
}

/// The shortest big-endian form of `n`.
pub fn amount_to_be_bytes(n: u128) -> (r: Vec<u8>)
    ensures
        r@ == amount_be(n as nat),
    decreases n,
{
    if n == 0 {
        Vec::new()
    } else {
        let mut out = amount_to_be_bytes(n / 256);
        out.push((n % 256) as u8);
        out
    }
}

/// The bytes of "mpp-session-v1".
pub fn domain_prefix_bytes() -> (r: Vec<u8>)
    ensures
        r@ == domain_prefix(),
{
    let mut out: Vec<u8> = Vec::new();
    out.push(109u8);
    out.push(112u8);
    out.push(112u8);
    out.push(45u8);
    out.push(115u8);
    out.push(101u8);
    out.push(115u8);
    out.push(115u8);
    out.push(105u8);
    out.push(111u8);
    out.push(110u8);
    out.push(45u8);
    out.push(118u8);
    out.push(49u8);
    assert(out@ =~= domain_prefix());
    out
}

/// Builds what is hashed into a channel id.
pub fn build_channel_id_message(employer: &Address, receiver: &Address, channel_nonce: u64) -> (r: Vec<u8>)
    ensures
        r@ == channel_id_message(employer@, receiver@, channel_nonce),
{
    let mut out: Vec<u8> = Vec::new();
    append_bytes(&mut out, employer.bytes.as_slice());
    append_bytes(&mut out, receiver.bytes.as_slice());
    let nonce_bytes = u64_to_be_bytes(channel_nonce);
    append_bytes(&mut out, nonce_bytes.as_slice());
    assert(out@ =~= channel_id_message(employer@, receiver@, channel_nonce));
    out
}

/// The channel number that `employer` uses after `count` opened channels,
/// and the message hashed into the id of that channel for `receiver`.
pub fn next_channel(employer: &Address, receiver: &Address, count: u64) -> (r: (u64, Vec<u8>))
    requires
        count < u64::MAX,
    ensures
        r.0 == count + 1,
        r.1@ == channel_id_message(employer@, receiver@, r.0),
{
    let channel_nonce = count + 1;
    (channel_nonce, build_channel_id_message(employer, receiver, channel_nonce))
}

/// Builds what is hashed and signed in a voucher.
pub fn build_voucher_message(sc_address: &Address, channel_id: &[u8], amount: &Amount, nonce: u64) -> (r: Vec<u8>)
    ensures
        r@ == voucher_message(sc_address@, channel_id@, amount@, nonce),
{
    let mut out = domain_prefix_bytes();
    append_bytes(&mut out, sc_address.bytes.as_slice());
    append_bytes(&mut out, channel_id);
    let amount_bytes = amount.to_shortest_bytes();
    append_bytes(&mut out, amount_bytes.as_slice());
    let nonce_bytes = u64_to_be_bytes(nonce);
    append_bytes(&mut out, nonce_bytes.as_slice());
    assert(out@ =~= voucher_message(sc_address@, channel_id@, amount@, nonce));
    out
}

} // verus!
