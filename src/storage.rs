use vstd::prelude::*;
use crate::amount::{zero_u256, U256};
use crate::channel::{update_result, update_signed, BalanceUpdate, Channel, ChannelError, ChannelStatus, UPDATE_TAG};
use crate::crypto::Address;
use crate::table::KeyedTable;

verus! {

/// Relies on rand's `random`: a value drawn from the thread-local
/// generator; nothing is known of it.
pub assume_specification<T>[ rand::random::<T> ]() -> (r: T)
    where
        rand::distributions::Standard: rand::distributions::Distribution<T>,
;

/// What is known of a remote party.
#[derive(Clone, Debug)]
pub enum Counterparty {
    /// No channel yet; `i_am_0` records whether this party is the first.
    New { i_am_0: bool, url: String },
    /// A channel with them has been registered.
    Confirmed { i_am_0: bool, url: String, channel_id: U256 },
}

/// A counterparty with its endpoint seen as characters.
pub enum CounterpartyView {
    New { i_am_0: bool, url: Seq<char> },
    Confirmed { i_am_0: bool, url: Seq<char>, channel_id: U256 },
}

impl Counterparty {
    pub open spec fn view(&self) -> CounterpartyView {
        match self {
            Counterparty::New { i_am_0, url } => CounterpartyView::New { i_am_0: *i_am_0, url: url@ },
            Counterparty::Confirmed { i_am_0, url, channel_id } => CounterpartyView::Confirmed {
                i_am_0: *i_am_0,
                url: url@,
                channel_id: *channel_id,
            },
        }
    }

    /// A copy with the same view.
    pub fn duplicate(&self) -> (r: Counterparty)
        ensures
            r@ == self@,
    {
        match self {
            Counterparty::New { i_am_0, url } => Counterparty::New { i_am_0: *i_am_0, url: url.clone() },
            Counterparty::Confirmed { i_am_0, url, channel_id } => Counterparty::Confirmed {
                i_am_0: *i_am_0,
                url: url.clone(),
                channel_id: *channel_id,
            },
        }
    }
}

/// A stored channel and the endpoint of its counterparty.
pub struct ChannelData {
    pub url: String,
    pub channel: Channel,
}

/// The channel a registration creates: `New`, with the two amounts as both
/// deposits and balances, nonce zero, no settling bookkeeping.
pub open spec fn registered_channel(id: U256, a: Address, b: Address, balance_a: U256, balance_b: U256) -> Channel {
    Channel {
        channel_id: id,
        address_a: a,
        address_b: b,
        channel_status: ChannelStatus::New,
        deposit_a: balance_a,
        deposit_b: balance_b,
        challenge: 0,
        nonce: zero_u256(),
        close_time: 0,
        balance_a,
        balance_b,
        is_a: true,
    }
}

/// The registry of channels, by identifier, and of counterparties, by
/// address.
pub struct InMemoryStorage {
    channels: KeyedTable<ChannelData>,
    counterparties: KeyedTable<Counterparty>,
}

impl InMemoryStorage {
    pub closed spec fn wf(&self) -> bool {
        self.channels.wf() && self.counterparties.wf()
    }

    /// Channels by the bytes of their identifier, with their endpoint.
    pub closed spec fn channel_map(&self) -> Map<Seq<u8>, (Seq<char>, Channel)> {
        self.channels@.map_values(|d: ChannelData| (d.url@, d.channel))
    }

    /// Counterparties by the bytes of their address.
    pub closed spec fn counterparty_map(&self) -> Map<Seq<u8>, CounterpartyView> {
        self.counterparties@.map_values(|c: Counterparty| c@)
    }

    pub fn new() -> (r: Self)
        ensures
            r.wf(),
            r.channel_map() == Map::<Seq<u8>, (Seq<char>, Channel)>::empty(),
            r.counterparty_map() == Map::<Seq<u8>, CounterpartyView>::empty(),
    {
        let r = InMemoryStorage { channels: KeyedTable::new(), counterparties: KeyedTable::new() };
        assert(r.channel_map() =~= Map::<Seq<u8>, (Seq<char>, Channel)>::empty());
        assert(r.counterparty_map() =~= Map::<Seq<u8>, CounterpartyView>::empty());
        r
    }

    /// Registers a new channel with the counterparty at `url` under a fresh
    /// random identifier.
    pub fn register(
        &mut self,
        url: String,
        address0: Address,
        address1: Address,
        balance0: U256,
        balance1: U256,
    ) -> (r: Channel)
        requires
            old(self).wf(),
        ensures
            final(self).wf(),
            r == registered_channel(r.channel_id, address0, address1, balance0, balance1),
            final(self).channel_map() == old(self).channel_map().insert(
                r.channel_id.bytes@,
                (url@, r),
            ),
            final(self).counterparty_map() == old(self).counterparty_map(),
    {
        let bytes: [u8; 32] = rand::random::<[u8; 32]>();
        self.register_with_id(U256 { bytes }, url, address0, address1, balance0, balance1)
    }

    /// Registers a new channel with the counterparty at `url` under the
    /// identifier `channel_id`, replacing any channel stored under it.
    pub fn register_with_id(
        &mut self,
        channel_id: U256,
        url: String,
        address0: Address,
        address1: Address,
        balance0: U256,
        balance1: U256,
    ) -> (r: Channel)
        requires
            old(self).wf(),
        ensures
            final(self).wf(),
            r == registered_channel(channel_id, address0, address1, balance0, balance1),
            final(self).channel_map() == old(self).channel_map().insert(
                channel_id.bytes@,
                (url@, r),
            ),
            final(self).counterparty_map() == old(self).counterparty_map(),
    {
        let channel = Channel {
            channel_id,
            address_a: address0,
            address_b: address1,
            channel_status: ChannelStatus::New,
            deposit_a: balance0,
            deposit_b: balance1,
            challenge: 0,
            nonce: U256::zero(),
            close_time: 0,
            balance_a: balance0,
            balance_b: balance1,
            is_a: true,
        };
        let ghost before = self.channel_map();
        self.channels.insert(&channel_id.bytes, ChannelData { url, channel });
        assert(self.channel_map() =~= before.insert(channel_id.bytes@, (url@, channel)));
        channel
    }

    /// The endpoint of the counterparty of a channel.
    pub fn get_url_for_channel(&self, channel_id: &U256) -> (r: Result<String, ChannelError>)
        requires
            self.wf(),
        ensures
            self.channel_map().contains_key(channel_id.bytes@) ==> (r matches Ok(u) && u@
                == self.channel_map()[channel_id.bytes@].0),
            !self.channel_map().contains_key(channel_id.bytes@) ==> r == Err::<
                String,
                ChannelError,
            >(ChannelError::NotFound),
    {
        match self.channels.get(&channel_id.bytes) {
            Some(d) => Ok(d.url.clone()),
            None => Err(ChannelError::NotFound),
        }
    }

    /// The state of a channel.
    pub fn get_channel(&self, channel_id: &U256) -> (r: Result<Channel, ChannelError>)
        requires
            self.wf(),
        ensures
            self.channel_map().contains_key(channel_id.bytes@) ==> r == Ok::<
                Channel,
                ChannelError,
            >(self.channel_map()[channel_id.bytes@].1),
            !self.channel_map().contains_key(channel_id.bytes@) ==> r == Err::<
                Channel,
                ChannelError,
            >(ChannelError::NotFound),
    {
        match self.channels.get(&channel_id.bytes) {
            Some(d) => Ok(d.channel),
            None => Err(ChannelError::NotFound),
        }
    }

    /// Replaces the state of a stored channel, keeping its endpoint.
    pub fn update_channel(&mut self, channel_id: &U256, channel: Channel) -> (r: Result<(), ChannelError>)
        requires
            old(self).wf(),
        ensures
            final(self).wf(),
            final(self).counterparty_map() == old(self).counterparty_map(),
            old(self).channel_map().contains_key(channel_id.bytes@) ==> r is Ok
                && final(self).channel_map() == old(self).channel_map().insert(
                channel_id.bytes@,
                (old(self).channel_map()[channel_id.bytes@].0, channel),
            ),
            !old(self).channel_map().contains_key(channel_id.bytes@) ==> r == Err::<
                (),
                ChannelError,
            >(ChannelError::NotFound) && final(self).channel_map() == old(self).channel_map(),
    {
        let url = match self.channels.get(&channel_id.bytes) {
            Some(d) => d.url.clone(),
            None => {
                return Err(ChannelError::NotFound);
            },
        };
        let ghost before = self.channel_map();
        self.channels.insert(&channel_id.bytes, ChannelData { url, channel });
        assert(self.channel_map() =~= before.insert(
            channel_id.bytes@,
            (before[channel_id.bytes@].0, channel),
        ));
        Ok(())
    }

    /// Applies a signed balance update to the channel it names; on failure
    /// the registry is left as it was.
    pub fn apply_update(&mut self, u: &BalanceUpdate) -> (r: Result<(), ChannelError>)
        requires
            old(self).wf(),
        ensures
            final(self).wf(),
            final(self).counterparty_map() == old(self).counterparty_map(),
            !old(self).channel_map().contains_key(u.channel_id.bytes@) ==> r == Err::<
                (),
                ChannelError,
            >(ChannelError::NotFound) && final(self).channel_map() == old(self).channel_map(),
            old(self).channel_map().contains_key(u.channel_id.bytes@) ==> {
                let (url, ch) = old(self).channel_map()[u.channel_id.bytes@];
                match update_result(ch, *u, update_signed(UPDATE_TAG, ch, *u)) {
                    Ok(c) => r is Ok && final(self).channel_map() == old(self).channel_map().insert(
                        u.channel_id.bytes@,
                        (url, c),
                    ),
                    Err(e) => r == Err::<(), ChannelError>(e) && final(self).channel_map()
                        == old(self).channel_map(),
                }
            },
    {
        let mut ch = match self.get_channel(&u.channel_id) {
            Ok(c) => c,
            Err(e) => {
                return Err(e);
            },
        };
        match ch.update_state(u) {
            Ok(()) => self.update_channel(&u.channel_id, ch),
            Err(e) => Err(e),
        }
    }

    /// What is known of the party at `address`.
    pub fn get_counterparty(&self, address: &Address) -> (r: Result<Counterparty, ChannelError>)
        requires
            self.wf(),
        ensures
            self.counterparty_map().contains_key(address.bytes@) ==> (r matches Ok(c) && c@
                == self.counterparty_map()[address.bytes@]),
            !self.counterparty_map().contains_key(address.bytes@) ==> r == Err::<
                Counterparty,
                ChannelError,
            >(ChannelError::NotFound),
    {
        match self.counterparties.get(&address.bytes) {
            Some(c) => Ok(c.duplicate()),
            None => Err(ChannelError::NotFound),
        }
    }

    /// Records what is known of the party at `address`, replacing what was
    /// known before.
    pub fn upsert_counterparty(&mut self, address: &Address, counterparty: Counterparty)
        requires
            old(self).wf(),
        ensures
            final(self).wf(),
            final(self).counterparty_map() == old(self).counterparty_map().insert(
                address.bytes@,
                counterparty@,
            ),
            final(self).channel_map() == old(self).channel_map(),
    {
        let ghost before = self.counterparty_map();
        self.counterparties.insert(&address.bytes, counterparty);
        assert(self.counterparty_map() =~= before.insert(address.bytes@, counterparty@));
    }
}

} // verus!
