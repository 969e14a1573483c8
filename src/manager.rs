use vstd::prelude::*;
use crate::amount::U256;
use crate::channel::Channel;
use crate::crypto::Address;
use crate::storage::{registered_channel, Counterparty, CounterpartyView, InMemoryStorage};

verus! {

/// `a` comes before `b` in byte-wise lexicographic order.
pub open spec fn bytes_lt(a: Seq<u8>, b: Seq<u8>) -> bool {
    exists|i: int|
        0 <= i < a.len() && i < b.len() && a.subrange(0, i) == b.subrange(0, i) && a[i] < b[i]
}

/// Whether `a` orders before `b`; the lower address is a channel's first
/// party.
pub fn address_lt(a: &Address, b: &Address) -> (r: bool)
    ensures
        r == bytes_lt(a.bytes@, b.bytes@),
{
    let mut i: usize = 0;
    while i < 20
        invariant
            0 <= i <= 20,
            a.bytes@.subrange(0, i as int) == b.bytes@.subrange(0, i as int),
        decreases 20 - i,
    {
        if a.bytes[i] != b.bytes[i] {
            let lt = a.bytes[i] < b.bytes[i];
            if !lt {
                assert forall|j: int|
                    0 <= j < a.bytes@.len() && j < b.bytes@.len() && a.bytes@.subrange(0, j)
                        == b.bytes@.subrange(0, j) implies !(a.bytes@[j] < b.bytes@[j]) by {
                    if j < i {
                        assert(a.bytes@.subrange(0, i as int)[j] == b.bytes@.subrange(0, i as int)[j]);
                    } else if j > i {
                        assert(a.bytes@.subrange(0, j)[i as int] == b.bytes@.subrange(0, j)[i as int]);
                    }
                }
            }
            return lt;
        }
        assert(a.bytes@.subrange(0, i + 1) =~= a.bytes@.subrange(0, i as int).push(a.bytes@[i as int]));
        assert(b.bytes@.subrange(0, i + 1) =~= b.bytes@.subrange(0, i as int).push(b.bytes@[i as int]));
        i = i + 1;
    }
    assert forall|j: int|
        0 <= j < a.bytes@.len() && j < b.bytes@.len() && a.bytes@.subrange(0, j)
            == b.bytes@.subrange(0, j) implies !(a.bytes@[j] < b.bytes@[j]) by {
        assert(a.bytes@.subrange(0, 20)[j] == b.bytes@.subrange(0, 20)[j]);
    }
    false
}

/// Records the party at `remote`, reached at `url`, before any channel with
/// it exists; the local party at `own` is first if its address orders first.
pub fn register_counterparty(storage: &mut InMemoryStorage, own: &Address, remote: &Address, url: String)
    requires
        old(storage).wf(),
    ensures
        final(storage).wf(),
        final(storage).counterparty_map() == old(storage).counterparty_map().insert(
            remote.bytes@,
            CounterpartyView::New { i_am_0: bytes_lt(own.bytes@, remote.bytes@), url: url@ },
        ),
        final(storage).channel_map() == old(storage).channel_map(),
{
    let i_am_0 = address_lt(own, remote);
    storage.upsert_counterparty(remote, Counterparty::New { i_am_0, url });
}

/// The channel that `propose_channel` registers: the lower address first,
/// each deposit with its owner, `is_a` set for the local party.
pub open spec fn proposed_channel(id: U256, own: Address, remote: Address, own_deposit: U256, remote_deposit: U256) -> Channel {
    let first = bytes_lt(own.bytes@, remote.bytes@);
    let c = if first {
        registered_channel(id, own, remote, own_deposit, remote_deposit)
    } else {
        registered_channel(id, remote, own, remote_deposit, own_deposit)
    };
    Channel { is_a: first, ..c }
}

/// Registers a new channel with the party at `remote`, reached at `url`,
/// under a fresh random identifier, and records that party as having it.
pub fn propose_channel(
    storage: &mut InMemoryStorage,
    own: &Address,
    remote: &Address,
    url: String,
    own_deposit: U256,
    remote_deposit: U256,
) -> (r: Channel)
    requires
        old(storage).wf(),
    ensures
        final(storage).wf(),
        r == proposed_channel(r.channel_id, *own, *remote, own_deposit, remote_deposit),
        final(storage).channel_map() == old(storage).channel_map().insert(
            r.channel_id.bytes@,
            (url@, r),
        ),
        final(storage).counterparty_map() == old(storage).counterparty_map().insert(
            remote.bytes@,
            CounterpartyView::Confirmed {
                i_am_0: bytes_lt(own.bytes@, remote.bytes@),
                url: url@,
                channel_id: r.channel_id,
            },
        ),
{
    let i_am_0 = address_lt(own, remote);
    let party_url = url.clone();
    let mut ch = if i_am_0 {
        storage.register(url, *own, *remote, own_deposit, remote_deposit)
    } else {
        storage.register(url, *remote, *own, remote_deposit, own_deposit)
    };
    ch.is_a = i_am_0;
    let id = ch.channel_id;
    let res = storage.update_channel(&id, ch);
    assert(res is Ok);
    storage.upsert_counterparty(
        remote,
        Counterparty::Confirmed { i_am_0, url: party_url, channel_id: id },
    );
    ch
}

} // verus!
