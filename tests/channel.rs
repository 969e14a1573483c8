use clarity::PrivateKey;
use guac_core::amount::{sums_equal, U256};
use guac_core::channel::{
    state_bytes, BalanceUpdate, Channel, ChannelError, ChannelStatus, BOUNTY_TAG, CLOSE_TAG,
    SETTLE_TAG, UPDATE_TAG,
};
use guac_core::crypto::{verify_signature, Address, Signature};
use guac_core::storage::InMemoryStorage;

fn amount(v: u64) -> U256 {
    U256::from_bytes(num256::Uint256::from(v).to_be_bytes())
}

fn key(seed: u8) -> PrivateKey {
    PrivateKey::from_bytes([seed; 32]).unwrap()
}

fn address_of(k: &PrivateKey) -> Address {
    Address::from_bytes(k.to_address().into())
}

fn sign(k: &PrivateKey, msg: &[u8]) -> Signature {
    Signature::from_bytes(k.sign_ethereum_msg(msg).to_bytes())
}

fn signed_update(tag: u8, id: &U256, nonce: u64, a: u64, b: u64) -> BalanceUpdate {
    let n = amount(nonce);
    let ba = amount(a);
    let bb = amount(b);
    let msg = state_bytes(tag, id, &n, &ba, &bb);
    BalanceUpdate {
        channel_id: *id,
        nonce: n,
        balance_a: ba,
        balance_b: bb,
        signature_a: sign(&key(1), &msg),
        signature_b: sign(&key(2), &msg),
    }
}

/// A channel with deposits 100 and 50, registered and confirmed open.
fn open_channel() -> Channel {
    let mut storage = InMemoryStorage::new();
    let mut ch = storage.register(
        "peer".to_string(),
        address_of(&key(1)),
        address_of(&key(2)),
        amount(100),
        amount(50),
    );
    ch.challenge = 10;
    ch.confirm_open(amount(4242)).unwrap();
    ch
}

fn same_state(x: &Channel, y: &Channel) -> bool {
    x.nonce.bytes == y.nonce.bytes
        && x.balance_a.bytes == y.balance_a.bytes
        && x.balance_b.bytes == y.balance_b.bytes
        && x.channel_status == y.channel_status
        && x.close_time == y.close_time
}

#[test]
fn confirm_open_takes_ledger_id() {
    let ch = open_channel();
    assert_eq!(ch.channel_status, ChannelStatus::Open);
    assert_eq!(ch.channel_id.bytes, amount(4242).bytes);
    let mut again = ch;
    assert_eq!(
        again.confirm_open(amount(1)).unwrap_err(),
        ChannelError::InvalidChannelState
    );
}

#[test]
fn update_applies_balances_and_nonce() {
    let mut ch = open_channel();
    let u = signed_update(UPDATE_TAG, &ch.channel_id, 1, 70, 80);
    ch.update_state(&u).unwrap();
    assert_eq!(ch.nonce.bytes, amount(1).bytes);
    assert_eq!(ch.balance_a.bytes, amount(70).bytes);
    assert_eq!(ch.balance_b.bytes, amount(80).bytes);
    assert_eq!(ch.deposit_a.bytes, amount(100).bytes);
}

#[test]
fn same_nonce_twice_is_stale() {
    let mut ch = open_channel();
    let first = signed_update(UPDATE_TAG, &ch.channel_id, 1, 70, 80);
    ch.update_state(&first).unwrap();
    let after_first = ch;
    let second = signed_update(UPDATE_TAG, &ch.channel_id, 1, 10, 140);
    assert_eq!(ch.update_state(&second).unwrap_err(), ChannelError::StaleNonce);
    assert!(same_state(&ch, &after_first));
    assert_eq!(ch.balance_a.bytes, amount(70).bytes);
}

#[test]
fn lower_nonce_is_stale() {
    let mut ch = open_channel();
    ch.update_state(&signed_update(UPDATE_TAG, &ch.channel_id, 5, 100, 50))
        .unwrap();
    let older = signed_update(UPDATE_TAG, &ch.channel_id, 3, 0, 150);
    assert_eq!(ch.update_state(&older).unwrap_err(), ChannelError::StaleNonce);
    assert_eq!(ch.nonce.bytes, amount(5).bytes);
}

#[test]
fn unbalanced_update_is_rejected() {
    let mut ch = open_channel();
    let before = ch;
    let u = signed_update(UPDATE_TAG, &ch.channel_id, 1, 100, 51);
    assert_eq!(
        ch.update_state(&u).unwrap_err(),
        ChannelError::BalanceConservationViolation
    );
    assert!(same_state(&ch, &before));
}

#[test]
fn bad_signature_is_rejected() {
    let mut ch = open_channel();
    let before = ch;
    let mut u = signed_update(UPDATE_TAG, &ch.channel_id, 1, 70, 80);
    u.signature_b = u.signature_a;
    assert_eq!(ch.update_state(&u).unwrap_err(), ChannelError::InvalidSignature);
    assert!(same_state(&ch, &before));
    // a signature given under another tag does not count for an update
    let close = signed_update(CLOSE_TAG, &ch.channel_id, 1, 70, 80);
    assert_eq!(ch.update_state(&close).unwrap_err(), ChannelError::InvalidSignature);
}

#[test]
fn update_on_other_channel_is_not_found() {
    let mut ch = open_channel();
    let u = signed_update(UPDATE_TAG, &amount(1), 1, 70, 80);
    assert_eq!(ch.update_state(&u).unwrap_err(), ChannelError::NotFound);
}

#[test]
fn update_on_new_channel_is_invalid_state() {
    let mut storage = InMemoryStorage::new();
    let mut ch = storage.register(
        "peer".to_string(),
        address_of(&key(1)),
        address_of(&key(2)),
        amount(100),
        amount(50),
    );
    let u = signed_update(UPDATE_TAG, &ch.channel_id, 1, 70, 80);
    assert_eq!(ch.update_state(&u).unwrap_err(), ChannelError::InvalidChannelState);
}

#[test]
fn close_fast_on_new_channel_is_invalid_state() {
    let mut storage = InMemoryStorage::new();
    let mut ch = storage.register(
        "peer".to_string(),
        address_of(&key(1)),
        address_of(&key(2)),
        amount(100),
        amount(50),
    );
    let u = signed_update(CLOSE_TAG, &ch.channel_id, 1, 100, 50);
    assert_eq!(
        ch.close_channel_fast(&u).unwrap_err(),
        ChannelError::InvalidChannelState
    );
    assert_eq!(ch.channel_status, ChannelStatus::New);
}

#[test]
fn close_fast_closes_open_channel() {
    let mut ch = open_channel();
    let u = signed_update(CLOSE_TAG, &ch.channel_id, 2, 20, 130);
    ch.close_channel_fast(&u).unwrap();
    assert_eq!(ch.channel_status, ChannelStatus::Closed);
    assert_eq!(ch.balance_a.bytes, amount(20).bytes);
    assert_eq!(ch.balance_b.bytes, amount(130).bytes);
    let later = signed_update(UPDATE_TAG, &ch.channel_id, 3, 0, 150);
    assert_eq!(ch.update_state(&later).unwrap_err(), ChannelError::InvalidChannelState);
}

#[test]
fn settling_then_newer_update_wins() {
    let mut ch = open_channel();
    ch.update_state(&signed_update(UPDATE_TAG, &ch.channel_id, 1, 140, 10))
        .unwrap();
    let msg = state_bytes(SETTLE_TAG, &ch.channel_id, &ch.nonce, &ch.balance_a, &ch.balance_b);
    ch.start_settling_period(&sign(&key(1), &msg), 1000).unwrap();
    assert_eq!(ch.channel_status, ChannelStatus::Settling);
    assert_eq!(ch.close_time, 1010);
    ch.update_state(&signed_update(UPDATE_TAG, &ch.channel_id, 2, 60, 90))
        .unwrap();
    assert_eq!(ch.close_channel(1009).unwrap_err(), ChannelError::InvalidChannelState);
    ch.close_channel(1010).unwrap();
    assert_eq!(ch.channel_status, ChannelStatus::Closed);
    assert_eq!(ch.balance_a.bytes, amount(60).bytes);
    assert_eq!(ch.balance_b.bytes, amount(90).bytes);
}

#[test]
fn settling_needs_a_party_signature() {
    let mut ch = open_channel();
    let msg = state_bytes(SETTLE_TAG, &ch.channel_id, &ch.nonce, &ch.balance_a, &ch.balance_b);
    assert_eq!(
        ch.start_settling_period(&sign(&key(3), &msg), 5).unwrap_err(),
        ChannelError::InvalidSignature
    );
    assert_eq!(ch.channel_status, ChannelStatus::Open);
    ch.start_settling_period(&sign(&key(2), &msg), u64::MAX - 3).unwrap();
    assert_eq!(ch.close_time, u64::MAX);
    assert_eq!(
        ch.start_settling_period(&sign(&key(2), &msg), 5).unwrap_err(),
        ChannelError::InvalidChannelState
    );
}

#[test]
fn close_channel_requires_settling() {
    let mut ch = open_channel();
    assert_eq!(ch.close_channel(u64::MAX).unwrap_err(), ChannelError::InvalidChannelState);
    assert_eq!(ch.channel_status, ChannelStatus::Open);
}

#[test]
fn bounty_update_checks_bounty_signature() {
    let mut ch = open_channel();
    let u = signed_update(UPDATE_TAG, &ch.channel_id, 1, 70, 80);
    let bounty = amount(3);
    let mut msg = state_bytes(BOUNTY_TAG, &ch.channel_id, &u.nonce, &u.balance_a, &u.balance_b);
    msg.extend_from_slice(&bounty.bytes);
    let stranger = sign(&key(3), &msg);
    assert_eq!(
        ch.update_state_with_bounty(&u, &bounty, &stranger).unwrap_err(),
        ChannelError::InvalidSignature
    );
    ch.update_state_with_bounty(&u, &bounty, &sign(&key(2), &msg))
        .unwrap();
    assert_eq!(ch.balance_a.bytes, amount(70).bytes);
}

#[test]
fn storage_apply_update_commits_and_rejects_stale() {
    let mut storage = InMemoryStorage::new();
    let mut ch = storage.register_with_id(
        amount(11),
        "peer".to_string(),
        address_of(&key(1)),
        address_of(&key(2)),
        amount(100),
        amount(50),
    );
    ch.channel_status = ChannelStatus::Open;
    storage.update_channel(&amount(11), ch).unwrap();
    storage
        .apply_update(&signed_update(UPDATE_TAG, &amount(11), 1, 30, 120))
        .unwrap();
    assert_eq!(
        storage
            .apply_update(&signed_update(UPDATE_TAG, &amount(11), 1, 150, 0))
            .unwrap_err(),
        ChannelError::StaleNonce
    );
    let stored = storage.get_channel(&amount(11)).unwrap();
    assert_eq!(stored.balance_a.bytes, amount(30).bytes);
    assert_eq!(stored.nonce.bytes, amount(1).bytes);
    assert_eq!(storage.get_url_for_channel(&amount(11)).unwrap(), "peer");
    assert_eq!(
        storage
            .apply_update(&signed_update(UPDATE_TAG, &amount(12), 2, 30, 120))
            .unwrap_err(),
        ChannelError::NotFound
    );
}

#[test]
fn signature_verification() {
    let msg = vec![1u8, 2, 3];
    let sig = sign(&key(1), &msg);
    assert!(verify_signature(&sig, &msg, &address_of(&key(1))));
    assert!(!verify_signature(&sig, &msg, &address_of(&key(2))));
    assert!(!verify_signature(&sig, &vec![1u8, 2, 4], &address_of(&key(1))));
    assert!(!verify_signature(&Signature::from_bytes([0u8; 65]), &msg, &address_of(&key(1))));
}

#[test]
fn amount_arithmetic() {
    let big = U256::from_bytes([0xffu8; 32]);
    assert!(amount(3).lt(&amount(4)));
    assert!(!amount(4).lt(&amount(4)));
    assert!(amount(4).same(&amount(4)));
    assert!(amount(70000).lt(&big));
    assert_eq!(amount(10).checked_sub(&amount(3)).unwrap().bytes, amount(7).bytes);
    assert!(amount(3).checked_sub(&amount(10)).is_none());
    assert!(sums_equal(&amount(1), &amount(9), &amount(4), &amount(6)));
    assert!(!sums_equal(&amount(1), &amount(9), &amount(4), &amount(7)));
    // sums above 2^256 are compared exactly
    assert!(sums_equal(&big, &amount(2), &amount(2), &big));
    assert!(!sums_equal(&big, &amount(2), &amount(1), &big));
    assert_eq!(U256::zero().bytes, [0u8; 32]);
}
