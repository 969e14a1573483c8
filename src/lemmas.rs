use vstd::prelude::*;
use crate::amount::U256;
use crate::channel::{
    close_fast_result, close_result, conserved, open_result, redraw_result, settle_result,
    update_result, update_signed, BalanceUpdate, Redraw, Channel, ChannelError, ChannelStatus, UPDATE_TAG,
};
use crate::storage::{registered_channel, CounterpartyView};
use crate::crypto::Address;

verus! {

/// The channel after each update of `us` in turn, as `update_state` leaves
/// it (a rejected update changes nothing).
pub open spec fn apply_updates(ch: Channel, us: Seq<BalanceUpdate>) -> Channel
    decreases us.len(),
{
    if us.len() == 0 {
        ch
    } else {
        let prev = apply_updates(ch, us.drop_last());
        match update_result(prev, us.last(), update_signed(UPDATE_TAG, prev, us.last())) {
            Ok(c) => c,
            Err(_) => prev,
        }
    }
}

/// An accepted update raises the nonce; an update whose nonce is not above
/// the committed one, on a channel that takes updates, is rejected as stale.
pub proof fn lemma_update_nonce(ch: Channel, u: BalanceUpdate, signed: bool)
    ensures
        update_result(ch, u, signed) matches Ok(c) ==> c.nonce.value() > ch.nonce.value(),
        close_fast_result(ch, u, signed) matches Ok(c) ==> c.nonce.value() > ch.nonce.value(),
        (ch.channel_status == ChannelStatus::Open || ch.channel_status == ChannelStatus::Settling)
            && u.channel_id.value() == ch.channel_id.value() && u.nonce.value()
            <= ch.nonce.value() ==> update_result(ch, u, signed) == Err::<Channel, ChannelError>(
            ChannelError::StaleNonce,
        ),
{
}

/// Over any sequence of updates, the committed nonce never goes down, and
/// each accepted update raises it.
pub proof fn lemma_nonce_never_decreases(ch: Channel, us: Seq<BalanceUpdate>)
    ensures
        apply_updates(ch, us).nonce.value() >= ch.nonce.value(),
        us.len() > 0 ==> ({
            let prev = apply_updates(ch, us.drop_last());
            apply_updates(ch, us) == prev || apply_updates(ch, us).nonce.value()
                > prev.nonce.value()
        }),
    decreases us.len(),
{
    if us.len() > 0 {
        lemma_nonce_never_decreases(ch, us.drop_last());
        let prev = apply_updates(ch, us.drop_last());
        lemma_update_nonce(prev, us.last(), update_signed(UPDATE_TAG, prev, us.last()));
    }
}

/// Every transition keeps the balances equal in sum to the deposits; a
/// redraw, which sets new deposits, also raises the nonce.
pub proof fn lemma_conservation(ch: Channel, u: BalanceUpdate, r: Redraw, signed: bool, now: u64, id: U256)
    requires
        conserved(ch),
    ensures
        redraw_result(ch, r, signed) matches Ok(c) ==> conserved(c) && c.nonce.value()
            > ch.nonce.value(),
        update_result(ch, u, signed) matches Ok(c) ==> conserved(c),
        close_fast_result(ch, u, signed) matches Ok(c) ==> conserved(c),
        settle_result(ch, now, signed) matches Ok(c) ==> conserved(c),
        close_result(ch, now) matches Ok(c) ==> conserved(c),
        open_result(ch, id) matches Ok(c) ==> conserved(c),
{
}

/// A registered channel has its deposits as balances.
pub proof fn lemma_registered_conserved(id: U256, a: Address, b: Address, balance_a: U256, balance_b: U256)
    ensures
        conserved(registered_channel(id, a, b, balance_a, balance_b)),
{
}

/// Over any sequence of updates a conserving channel stays conserving.
pub proof fn lemma_conserved_over_updates(ch: Channel, us: Seq<BalanceUpdate>)
    requires
        conserved(ch),
    ensures
        conserved(apply_updates(ch, us)),
    decreases us.len(),
{
    if us.len() > 0 {
        lemma_conserved_over_updates(ch, us.drop_last());
    }
}

/// An update whose balances do not add up to the deposits, on a channel that
/// takes updates, with the right identifier and a fresh nonce, is rejected
/// for that reason.
pub proof fn lemma_unbalanced_rejected(ch: Channel, u: BalanceUpdate, signed: bool)
    requires
        ch.channel_status == ChannelStatus::Open || ch.channel_status == ChannelStatus::Settling,
        u.channel_id.value() == ch.channel_id.value(),
        u.nonce.value() > ch.nonce.value(),
        u.balance_a.value() + u.balance_b.value() != ch.deposit_a.value() + ch.deposit_b.value(),
    ensures
        update_result(ch, u, signed) == Err::<Channel, ChannelError>(
            ChannelError::BalanceConservationViolation,
        ),
{
}

/// Registering a channel under some identifier with endpoint `url`, the
/// endpoint then found for that identifier is `url`.
pub proof fn lemma_register_then_lookup(
    channels: Map<Seq<u8>, (Seq<char>, Channel)>,
    id: Seq<u8>,
    url: Seq<char>,
    ch: Channel,
)
    ensures
        channels.insert(id, (url, ch)).contains_key(id),
        channels.insert(id, (url, ch))[id].0 == url,
{
}

/// Upserting a counterparty twice leaves only the second record.
pub proof fn lemma_upsert_keeps_latest(
    parties: Map<Seq<u8>, CounterpartyView>,
    address: Seq<u8>,
    first: CounterpartyView,
    second: CounterpartyView,
)
    ensures
        parties.insert(address, first).insert(address, second) == parties.insert(address, second),
        parties.insert(address, first).insert(address, second)[address] == second,
{
    assert(parties.insert(address, first).insert(address, second) =~= parties.insert(
        address,
        second,
    ));
}

/// A newer valid state submitted during the settling period replaces the
/// one that started it: once the period is over, the channel closes at the
/// newer balances.
pub proof fn lemma_settling_override(ch: Channel, settle_signed: bool, start: u64, u: BalanceUpdate, end: u64)
    requires
        settle_result(ch, start, settle_signed) is Ok,
        u.channel_id.value() == ch.channel_id.value(),
        u.nonce.value() > ch.nonce.value(),
        u.balance_a.value() + u.balance_b.value() == ch.deposit_a.value() + ch.deposit_b.value(),
        end >= settle_result(ch, start, settle_signed)->Ok_0.close_time,
    ensures
        ({
            let settling = settle_result(ch, start, settle_signed)->Ok_0;
            &&& update_result(settling, u, true) is Ok
            &&& close_result(update_result(settling, u, true)->Ok_0, end) is Ok
            &&& close_result(update_result(settling, u, true)->Ok_0, end)->Ok_0.balance_a == u.balance_a
            &&& close_result(update_result(settling, u, true)->Ok_0, end)->Ok_0.balance_b == u.balance_b
            &&& close_result(update_result(settling, u, true)->Ok_0, end)->Ok_0.channel_status
                == ChannelStatus::Closed
        }),
{
}

} // verus!
