use vstd::prelude::*;
use crate::amount::{sums_equal, U256};
use crate::crypto::{signed_by, verify_signature, Address, Signature};

verus! {

/// Lifecycle of a channel: `New -> Open -> Settling -> Closed`.
#[derive(Clone, Copy, Debug, PartialEq, Eq, Structural)]
pub enum ChannelStatus {
    New,
    Open,
    Settling,
    Closed,
}

/// The failures of channel and registry operations.
#[derive(Clone, Copy, Debug, PartialEq, Eq, Structural)]
pub enum ChannelError {
    NotFound,
    StaleNonce,
    InvalidSignature,
    BalanceConservationViolation,
    InvalidChannelState,
    ContractCallFailed,
    TransportFailure,
}

/// A channel between the parties `address_a` and `address_b`.
#[derive(Clone, Copy, Debug)]
pub struct Channel {
    pub channel_id: U256,
    pub address_a: Address,
    pub address_b: Address,
    pub channel_status: ChannelStatus,
    pub deposit_a: U256,
    pub deposit_b: U256,
    /// Length of the settling period.
    pub challenge: u64,
    pub nonce: U256,
    /// End of the settling period, once it has started.
    pub close_time: u64,
    pub balance_a: U256,
    pub balance_b: U256,
    pub is_a: bool,
}

/// A balance update signed by both parties.
#[derive(Clone, Copy, Debug)]
pub struct BalanceUpdate {
    pub channel_id: U256,
    pub nonce: U256,
    pub balance_a: U256,
    pub balance_b: U256,
    pub signature_a: Signature,
    pub signature_b: Signature,
}

/// First byte of each kind of signed message, so that a signature given for
/// one purpose cannot be replayed for another.
pub const UPDATE_TAG: u8 = 0;
pub const CLOSE_TAG: u8 = 1;
pub const SETTLE_TAG: u8 = 2;
pub const BOUNTY_TAG: u8 = 3;
pub const REDRAW_TAG: u8 = 4;

/// A change of deposits on an open channel, signed by both parties: the
/// balances move from `old_balance_*` to `new_balance_*`, which become the
/// new deposits.
#[derive(Clone, Copy, Debug)]
pub struct Redraw {
    pub channel_id: U256,
    pub nonce: U256,
    pub old_balance_a: U256,
    pub old_balance_b: U256,
    pub new_balance_a: U256,
    pub new_balance_b: U256,
    pub expiration: U256,
    pub signature_a: Signature,
    pub signature_b: Signature,
}

/// The signed redraw message: the tag, then identifier, nonce, the old and
/// new balances and the expiration, 32 big-endian bytes each.
pub open spec fn redraw_message(r: Redraw) -> Seq<u8> {
    state_message(REDRAW_TAG, r.channel_id, r.nonce, r.old_balance_a, r.old_balance_b)
        + r.new_balance_a.bytes@ + r.new_balance_b.bytes@ + r.expiration.bytes@
}

pub open spec fn redraw_signed(ch: Channel, r: Redraw) -> bool {
    signed_by(r.signature_a, redraw_message(r), ch.address_a) && signed_by(
        r.signature_b,
        redraw_message(r),
        ch.address_b,
    )
}

/// What a redraw does: only on an open channel, with a fresh nonce, from the
/// committed balances; the new balances become both balances and deposits.
pub open spec fn redraw_result(ch: Channel, r: Redraw, signed: bool) -> Result<Channel, ChannelError> {
    if ch.channel_status != ChannelStatus::Open {
        Err(ChannelError::InvalidChannelState)
    } else if r.channel_id.value() != ch.channel_id.value() {
        Err(ChannelError::NotFound)
    } else if r.nonce.value() <= ch.nonce.value() {
        Err(ChannelError::StaleNonce)
    } else if r.old_balance_a.value() != ch.balance_a.value() || r.old_balance_b.value()
        != ch.balance_b.value() {
        Err(ChannelError::BalanceConservationViolation)
    } else if !signed {
        Err(ChannelError::InvalidSignature)
    } else {
        Ok(
            Channel {
                nonce: r.nonce,
                deposit_a: r.new_balance_a,
                deposit_b: r.new_balance_b,
                balance_a: r.new_balance_a,
                balance_b: r.new_balance_b,
                ..ch
            },
        )
    }
}

/// Funds are conserved: the balances add up to the deposits.
pub open spec fn conserved(ch: Channel) -> bool {
    ch.balance_a.value() + ch.balance_b.value() == ch.deposit_a.value() + ch.deposit_b.value()
}

/// The signed message: a tag, then channel id, nonce and both balances as
/// 32 big-endian bytes each.
pub open spec fn state_message(tag: u8, id: U256, nonce: U256, a: U256, b: U256) -> Seq<u8> {
    seq![tag] + id.bytes@ + nonce.bytes@ + a.bytes@ + b.bytes@
}

pub open spec fn update_message(tag: u8, u: BalanceUpdate) -> Seq<u8> {
    state_message(tag, u.channel_id, u.nonce, u.balance_a, u.balance_b)
}

/// Both parties signed the update, under the given tag.
pub open spec fn update_signed(tag: u8, ch: Channel, u: BalanceUpdate) -> bool {
    signed_by(u.signature_a, update_message(tag, u), ch.address_a) && signed_by(
        u.signature_b,
        update_message(tag, u),
        ch.address_b,
    )
}

/// The bounty authorisation: the update's state under the bounty tag,
/// followed by the bounty amount, signed by either party.
pub open spec fn bounty_signed(ch: Channel, u: BalanceUpdate, amount: U256, sig: Signature) -> bool {
    let msg = update_message(BOUNTY_TAG, u) + amount.bytes@;
    signed_by(sig, msg, ch.address_a) || signed_by(sig, msg, ch.address_b)
}

pub open spec fn with_state(ch: Channel, u: BalanceUpdate) -> Channel {
    Channel { nonce: u.nonce, balance_a: u.balance_a, balance_b: u.balance_b, ..ch }
}

/// Checks shared by updates and the fast close, in order: the channel, the
/// nonce, the conservation of funds, and last the signatures.
pub open spec fn validate(ch: Channel, u: BalanceUpdate, signed: bool) -> Result<Channel, ChannelError> {
    if u.channel_id.value() != ch.channel_id.value() {
        Err(ChannelError::NotFound)
    } else if u.nonce.value() <= ch.nonce.value() {
        Err(ChannelError::StaleNonce)
    } else if u.balance_a.value() + u.balance_b.value() != ch.deposit_a.value()
        + ch.deposit_b.value() {
        Err(ChannelError::BalanceConservationViolation)
    } else if !signed {
        Err(ChannelError::InvalidSignature)
    } else {
        Ok(with_state(ch, u))
    }
}

/// What an update does to a channel, given whether both signatures hold:
/// it is accepted while the channel is open or settling.
pub open spec fn update_result(ch: Channel, u: BalanceUpdate, signed: bool) -> Result<Channel, ChannelError> {
    if ch.channel_status != ChannelStatus::Open && ch.channel_status != ChannelStatus::Settling {
        Err(ChannelError::InvalidChannelState)
    } else {
        validate(ch, u, signed)
    }
}

/// What a cooperative close does: only from `Open`, straight to `Closed`.
pub open spec fn close_fast_result(ch: Channel, u: BalanceUpdate, signed: bool) -> Result<Channel, ChannelError> {
    if ch.channel_status != ChannelStatus::Open {
        Err(ChannelError::InvalidChannelState)
    } else {
        match validate(ch, u, signed) {
            Ok(c) => Ok(Channel { channel_status: ChannelStatus::Closed, ..c }),
            Err(e) => Err(e),
        }
    }
}

/// `now + challenge`, held at the largest `u64`.
pub open spec fn deadline(now: u64, challenge: u64) -> u64 {
    if now as int + challenge as int > u64::MAX as int {
        u64::MAX
    } else {
        (now + challenge) as u64
    }
}

/// What a unilateral close request does: from `Open` to `Settling`, the
/// settling period ending `challenge` after `now`.
pub open spec fn settle_result(ch: Channel, now: u64, signed: bool) -> Result<Channel, ChannelError> {
    if ch.channel_status != ChannelStatus::Open {
        Err(ChannelError::InvalidChannelState)
    } else if !signed {
        Err(ChannelError::InvalidSignature)
    } else {
        Ok(
            Channel {
                channel_status: ChannelStatus::Settling,
                close_time: deadline(now, ch.challenge),
                ..ch
            },
        )
    }
}

/// What the end of the settling period does: `Settling -> Closed`, once
/// `now` has reached the deadline, at the last committed balances.
pub open spec fn close_result(ch: Channel, now: u64) -> Result<Channel, ChannelError> {
    if ch.channel_status != ChannelStatus::Settling || now < ch.close_time {
        Err(ChannelError::InvalidChannelState)
    } else {
        Ok(Channel { channel_status: ChannelStatus::Closed, ..ch })
    }
}

/// What the confirmation of the channel on the ledger does: `New -> Open`,
/// taking the confirmed identifier.
pub open spec fn open_result(ch: Channel, id: U256) -> Result<Channel, ChannelError> {
    if ch.channel_status != ChannelStatus::New {
        Err(ChannelError::InvalidChannelState)
    } else {
        Ok(Channel { channel_id: id, channel_status: ChannelStatus::Open, ..ch })
    }
}

fn push_word(v: &mut Vec<u8>, w: &U256)
    ensures
        final(v)@ == old(v)@ + w.bytes@,
{
    let mut i: usize = 0;
    while i < 32
        invariant
            0 <= i <= 32,
            v@ == old(v)@ + w.bytes@.subrange(0, i as int),
        decreases 32 - i,
    {
        v.push(w.bytes[i]);
        i = i + 1;
        assert(v@ =~= old(v)@ + w.bytes@.subrange(0, i as int));
    }
    assert(w.bytes@.subrange(0, 32) =~= w.bytes@);
}

/// Builds the message that the parties sign for a channel state.
pub fn state_bytes(tag: u8, id: &U256, nonce: &U256, a: &U256, b: &U256) -> (r: Vec<u8>)
    ensures
        r@ == state_message(tag, *id, *nonce, *a, *b),
{
    let mut v: Vec<u8> = Vec::new();
    v.push(tag);
    push_word(&mut v, id);
    push_word(&mut v, nonce);
    push_word(&mut v, a);
    push_word(&mut v, b);
    assert(v@ =~= state_message(tag, *id, *nonce, *a, *b));
    v
}

/// Builds the message that the parties sign for a redraw.
pub fn redraw_bytes(r: &Redraw) -> (res: Vec<u8>)
    ensures
        res@ == redraw_message(*r),
{
    let mut v = state_bytes(REDRAW_TAG, &r.channel_id, &r.nonce, &r.old_balance_a, &r.old_balance_b);
    push_word(&mut v, &r.new_balance_a);
    push_word(&mut v, &r.new_balance_b);
    push_word(&mut v, &r.expiration);
    v
}

/// Checks both parties' signatures on an update, under the given tag.
pub fn check_update_signatures(tag: u8, ch: &Channel, u: &BalanceUpdate) -> (r: bool)
    ensures
        r == update_signed(tag, *ch, *u),
{
    let msg = state_bytes(tag, &u.channel_id, &u.nonce, &u.balance_a, &u.balance_b);
    let ok_a = verify_signature(&u.signature_a, &msg, &ch.address_a);
    let ok_b = verify_signature(&u.signature_b, &msg, &ch.address_b);
    ok_a && ok_b
}

fn validate_exec(ch: &Channel, u: &BalanceUpdate, signed: bool) -> (r: Result<Channel, ChannelError>)
    ensures
        r == validate(*ch, *u, signed),
{
    if !u.channel_id.same(&ch.channel_id) {
        Err(ChannelError::NotFound)
    } else if !ch.nonce.lt(&u.nonce) {
        Err(ChannelError::StaleNonce)
    } else if !sums_equal(&u.balance_a, &u.balance_b, &ch.deposit_a, &ch.deposit_b) {
        Err(ChannelError::BalanceConservationViolation)
    } else if !signed {
        Err(ChannelError::InvalidSignature)
    } else {
        Ok(Channel { nonce: u.nonce, balance_a: u.balance_a, balance_b: u.balance_b, ..*ch })
    }
}

impl Channel {
    /// The next state after the update `u`, given whether both parties'
    /// signatures on it hold.
    pub fn next_state(&self, u: &BalanceUpdate, signed: bool) -> (r: Result<Channel, ChannelError>)
        ensures
            r == update_result(*self, *u, signed),
    {
        if self.channel_status != ChannelStatus::Open && self.channel_status
            != ChannelStatus::Settling {
            Err(ChannelError::InvalidChannelState)
        } else {
            validate_exec(self, u, signed)
        }
    }

    /// The closed state after the cooperative close `u`, given whether both
    /// parties' signatures on it hold.
    pub fn fast_closed_state(&self, u: &BalanceUpdate, signed: bool) -> (r: Result<Channel, ChannelError>)
        ensures
            r == close_fast_result(*self, *u, signed),
    {
        if self.channel_status != ChannelStatus::Open {
            Err(ChannelError::InvalidChannelState)
        } else {
            match validate_exec(self, u, signed) {
                Ok(c) => Ok(Channel { channel_status: ChannelStatus::Closed, ..c }),
                Err(e) => Err(e),
            }
        }
    }

    /// The settling state after a close request made at `now`, given whether
    /// the requester's signature holds.
    pub fn settling_state(&self, now: u64, signed: bool) -> (r: Result<Channel, ChannelError>)
        ensures
            r == settle_result(*self, now, signed),
    {
        if self.channel_status != ChannelStatus::Open {
            Err(ChannelError::InvalidChannelState)
        } else if !signed {
            Err(ChannelError::InvalidSignature)
        } else {
            let end = if now > u64::MAX - self.challenge {
                u64::MAX
            } else {
                now + self.challenge
            };
            Ok(Channel { channel_status: ChannelStatus::Settling, close_time: end, ..*self })
        }
    }

    /// Applies a balance update signed by both parties; on failure the
    /// channel is left as it was.
    pub fn update_state(&mut self, u: &BalanceUpdate) -> (r: Result<(), ChannelError>)
        ensures
            match update_result(*old(self), *u, update_signed(UPDATE_TAG, *old(self), *u)) {
                Ok(c) => r is Ok && *final(self) == c,
                Err(e) => r == Err::<(), ChannelError>(e) && *final(self) == *old(self),
            },
    {
        let signed = check_update_signatures(UPDATE_TAG, self, u);
        match self.next_state(u, signed) {
            Ok(c) => {
                *self = c;
                Ok(())
            },
            Err(e) => Err(e),
        }
    }

    /// Applies a balance update that also carries a bounty for whoever
    /// submits it first; the bounty authorisation must hold as well.
    pub fn update_state_with_bounty(
        &mut self,
        u: &BalanceUpdate,
        bounty_amount: &U256,
        bounty_signature: &Signature,
    ) -> (r: Result<(), ChannelError>)
        ensures
            match update_result(
                *old(self),
                *u,
                update_signed(UPDATE_TAG, *old(self), *u) && bounty_signed(
                    *old(self),
                    *u,
                    *bounty_amount,
                    *bounty_signature,
                ),
            ) {
                Ok(c) => r is Ok && *final(self) == c,
                Err(e) => r == Err::<(), ChannelError>(e) && *final(self) == *old(self),
            },
    {
        let signed = check_update_signatures(UPDATE_TAG, self, u);
        let mut msg = state_bytes(BOUNTY_TAG, &u.channel_id, &u.nonce, &u.balance_a, &u.balance_b);
        push_word(&mut msg, bounty_amount);
        let bounty_ok = verify_signature(bounty_signature, &msg, &self.address_a)
            || verify_signature(bounty_signature, &msg, &self.address_b);
        match self.next_state(u, signed && bounty_ok) {
            Ok(c) => {
                *self = c;
                Ok(())
            },
            Err(e) => Err(e),
        }
    }

    /// The state after the redraw `r`, given whether both parties'
    /// signatures on it hold.
    pub fn redrawn_state(&self, r: &Redraw, signed: bool) -> (res: Result<Channel, ChannelError>)
        ensures
            res == redraw_result(*self, *r, signed),
    {
        if self.channel_status != ChannelStatus::Open {
            Err(ChannelError::InvalidChannelState)
        } else if !r.channel_id.same(&self.channel_id) {
            Err(ChannelError::NotFound)
        } else if !self.nonce.lt(&r.nonce) {
            Err(ChannelError::StaleNonce)
        } else if !r.old_balance_a.same(&self.balance_a) || !r.old_balance_b.same(&self.balance_b) {
            Err(ChannelError::BalanceConservationViolation)
        } else if !signed {
            Err(ChannelError::InvalidSignature)
        } else {
            Ok(
                Channel {
                    nonce: r.nonce,
                    deposit_a: r.new_balance_a,
                    deposit_b: r.new_balance_b,
                    balance_a: r.new_balance_a,
                    balance_b: r.new_balance_b,
                    ..*self
                },
            )
        }
    }

    /// Changes the deposits of an open channel as both parties signed; on
    /// failure the channel is left as it was.
    pub fn redraw(&mut self, r: &Redraw) -> (res: Result<(), ChannelError>)
        ensures
            match redraw_result(*old(self), *r, redraw_signed(*old(self), *r)) {
                Ok(c) => res is Ok && *final(self) == c,
                Err(e) => res == Err::<(), ChannelError>(e) && *final(self) == *old(self),
            },
    {
        let msg = redraw_bytes(r);
        let signed = verify_signature(&r.signature_a, &msg, &self.address_a) && verify_signature(
            &r.signature_b,
            &msg,
            &self.address_b,
        );
        match self.redrawn_state(r, signed) {
            Ok(c) => {
                *self = c;
                Ok(())
            },
            Err(e) => Err(e),
        }
    }

    /// Closes an open channel at once with a final state that both parties
    /// signed; on failure the channel is left as it was.
    pub fn close_channel_fast(&mut self, u: &BalanceUpdate) -> (r: Result<(), ChannelError>)
        ensures
            match close_fast_result(*old(self), *u, update_signed(CLOSE_TAG, *old(self), *u)) {
                Ok(c) => r is Ok && *final(self) == c,
                Err(e) => r == Err::<(), ChannelError>(e) && *final(self) == *old(self),
            },
    {
        let signed = check_update_signatures(CLOSE_TAG, self, u);
        match self.fast_closed_state(u, signed) {
            Ok(c) => {
                *self = c;
                Ok(())
            },
            Err(e) => Err(e),
        }
    }

    /// Starts the settling period at `now` on the last committed state, at
    /// the request of either party, who signs that state.
    pub fn start_settling_period(&mut self, signature: &Signature, now: u64) -> (r: Result<(), ChannelError>)
        ensures
            ({
                let msg = state_message(
                    SETTLE_TAG,
                    old(self).channel_id,
                    old(self).nonce,
                    old(self).balance_a,
                    old(self).balance_b,
                );
                let signed = signed_by(*signature, msg, old(self).address_a) || signed_by(
                    *signature,
                    msg,
                    old(self).address_b,
                );
                match settle_result(*old(self), now, signed) {
                    Ok(c) => r is Ok && *final(self) == c,
                    Err(e) => r == Err::<(), ChannelError>(e) && *final(self) == *old(self),
                }
            }),
    {
        let msg = state_bytes(
            SETTLE_TAG,
            &self.channel_id,
            &self.nonce,
            &self.balance_a,
            &self.balance_b,
        );
        let signed = verify_signature(signature, &msg, &self.address_a) || verify_signature(
            signature,
            &msg,
            &self.address_b,
        );
        match self.settling_state(now, signed) {
            Ok(c) => {
                *self = c;
                Ok(())
            },
            Err(e) => Err(e),
        }
    }

    /// Closes a settling channel once its settling period is over.
    pub fn close_channel(&mut self, now: u64) -> (r: Result<(), ChannelError>)
        ensures
            match close_result(*old(self), now) {
                Ok(c) => r is Ok && *final(self) == c,
                Err(e) => r == Err::<(), ChannelError>(e) && *final(self) == *old(self),
            },
    {
        if self.channel_status != ChannelStatus::Settling || now < self.close_time {
            Err(ChannelError::InvalidChannelState)
        } else {
            self.channel_status = ChannelStatus::Closed;
            Ok(())
        }
    }

    /// Marks a new channel as open under the identifier that the ledger
    /// confirmed.
    pub fn confirm_open(&mut self, id: U256) -> (r: Result<(), ChannelError>)
        ensures
            match open_result(*old(self), id) {
                Ok(c) => r is Ok && *final(self) == c,
                Err(e) => r == Err::<(), ChannelError>(e) && *final(self) == *old(self),
            },
    {
        if self.channel_status != ChannelStatus::New {
            Err(ChannelError::InvalidChannelState)
        } else {
            self.channel_id = id;
            self.channel_status = ChannelStatus::Open;
            Ok(())
        }
    }
}

} // verus!
