use std::collections::HashMap;

use ed25519_dalek::{Signer, SigningKey, VerifyingKey};
use mpp_session_mvx::{Address, Amount, MppSessionContract, Payment, SessionError, TokenId, Transfer};
use multiversx_sc_scenario::multiversx_chain_vm::crypto_functions::keccak256;

/// A ledger of native-coin balances around one deployed contract; a refused
/// call leaves every balance as it was.
struct World {
    contract: MppSessionContract,
    sc: [u8; 32],
    balances: HashMap<[u8; 32], u128>,
    now: u64,
}

impl World {
    fn deploy(sc: [u8; 32], now: u64) -> World {
        World { contract: MppSessionContract::init(Address::new(sc)), sc, balances: HashMap::new(), now }
    }

    fn put_account(&mut self, account: [u8; 32], balance: u128) {
        self.balances.insert(account, balance);
    }

    fn balance(&self, account: [u8; 32]) -> u128 {
        *self.balances.get(&account).unwrap_or(&0)
    }

    fn pay_in(&mut self, from: [u8; 32], value: u128) {
        let b = self.balance(from);
        assert!(b >= value);
        self.balances.insert(from, b - value);
        let s = self.balance(self.sc);
        self.balances.insert(self.sc, s + value);
    }

    fn pay_out(&mut self, transfers: &[Transfer]) {
        for t in transfers {
            assert!(t.token_identifier.is_egld());
            let amount = t.amount.to_u128().unwrap();
            let s = self.balance(self.sc);
            assert!(s >= amount);
            self.balances.insert(self.sc, s - amount);
            let b = self.balance(t.to.bytes);
            self.balances.insert(t.to.bytes, b + amount);
        }
    }

    fn open(&mut self, from: [u8; 32], value: u128, receiver: [u8; 32], deadline: u64) -> Result<Vec<u8>, SessionError> {
        let payment = Payment { token_identifier: TokenId::Egld, amount: Amount::from_u128(value) };
        let (channel_id, _event) =
            self.contract.open(&Address::new(from), &payment, self.now, &Address::new(receiver), deadline)?;
        self.pay_in(from, value);
        Ok(channel_id)
    }

    fn top_up(&mut self, from: [u8; 32], channel_id: &[u8], value: u128) -> Result<(), SessionError> {
        let payment = Payment { token_identifier: TokenId::Egld, amount: Amount::from_u128(value) };
        self.contract.top_up(channel_id, &payment)?;
        self.pay_in(from, value);
        Ok(())
    }

    fn settle(&mut self, channel_id: &[u8], amount: u128, nonce: u64, signature: &[u8]) -> Result<(), SessionError> {
        let (transfer, _event) = self.contract.settle(channel_id, &Amount::from_u128(amount), nonce, signature)?;
        self.pay_out(&[transfer]);
        Ok(())
    }

    fn close(&mut self, channel_id: &[u8], amount: u128, nonce: u64, signature: &[u8]) -> Result<(), SessionError> {
        let (transfers, _event) = self.contract.close(channel_id, &Amount::from_u128(amount), nonce, signature)?;
        self.pay_out(&transfers);
        Ok(())
    }

    fn request_close(&mut self, from: [u8; 32], channel_id: &[u8]) -> Result<(), SessionError> {
        let (transfers, _event) = self.contract.request_close(channel_id, &Address::new(from), self.now)?;
        self.pay_out(&transfers);
        Ok(())
    }
}

fn employer_key() -> SigningKey {
    let employer_priv_key: [u8; 32] = [1u8; 32];
    SigningKey::from_bytes(&employer_priv_key)
}

fn employer_of(signing_key: &SigningKey) -> [u8; 32] {
    let verifying_key: VerifyingKey = signing_key.verifying_key();
    verifying_key.to_bytes()
}

fn sc_address_ending(last: u8) -> [u8; 32] {
    let mut a = [0u8; 32];
    a[31] = last;
    a
}

fn sign_voucher(signing_key: &SigningKey, sc_address: &[u8; 32], channel_id: &[u8], amount: u64, nonce: u64) -> [u8; 64] {
    let mut message = Vec::new();
    message.extend_from_slice(b"mpp-session-v1");
    message.extend_from_slice(sc_address);
    message.extend_from_slice(channel_id);
    let mut amount_vec = amount.to_be_bytes().to_vec();
    while amount_vec.len() > 1 && amount_vec[0] == 0 {
        amount_vec.remove(0);
    }
    message.extend_from_slice(&amount_vec);
    message.extend_from_slice(&nonce.to_be_bytes());
    let hash = keccak256(&message);
    signing_key.sign(hash.as_slice()).to_bytes()
}

fn compute_channel_id(employer: &[u8; 32], receiver: &[u8; 32]) -> Vec<u8> {
    let mut msg = Vec::new();
    msg.extend_from_slice(employer);
    msg.extend_from_slice(receiver);
    msg.extend_from_slice(&1u64.to_be_bytes());
    keccak256(&msg).to_vec()
}

#[test]
fn test_full_session_lifecycle() {
    let signing_key = employer_key();
    let employer_address = employer_of(&signing_key);
    let receiver_address = [2u8; 32];
    let sc_address = sc_address_ending(3);

    let mut world = World::deploy(sc_address, 100);
    world.put_account(employer_address, 10_000_000_000_000_000_000);
    world.put_account(receiver_address, 0);

    // Open Session
    let deadline = 10000u64;
    let opened = world.open(employer_address, 5_000_000_000_000_000_000, receiver_address, deadline).unwrap();

    // Calculate channel_id exactly as in SC
    let mut channel_id_msg = Vec::new();
    channel_id_msg.extend_from_slice(&employer_address);
    channel_id_msg.extend_from_slice(&receiver_address);
    let nonce: u64 = 1;
    channel_id_msg.extend_from_slice(&nonce.to_be_bytes());
    let channel_id = keccak256(&channel_id_msg);
    assert_eq!(opened, channel_id.to_vec());

    // Prepare Voucher
    let amount = 10_000_000u64;
    let nonce_voucher = 1u64;
    let signature = sign_voucher(&signing_key, &sc_address, &channel_id, amount, nonce_voucher);

    // Settle
    world.settle(&channel_id, 10_000_000, nonce_voucher, &signature).unwrap();

    // Check balances after settle
    assert_eq!(world.balance(receiver_address), 10_000_000);
    assert_eq!(world.balance(employer_address), 5_000_000_000_000_000_000);

    // Close session with a final voucher
    let final_amount = 20_000_000u64;
    let final_nonce = 2u64;
    let final_signature = sign_voucher(&signing_key, &sc_address, &channel_id, final_amount, final_nonce);
    world.close(&channel_id, 20_000_000, final_nonce, &final_signature).unwrap();

    // Final balances
    assert_eq!(world.balance(receiver_address), 20_000_000);
    assert_eq!(world.balance(employer_address), 9_999_999_999_980_000_000);
}
