use vstd::prelude::*;

use crate::datagram::{Datagram, DatagramView};
use crate::header::Header;
use crate::host::{Host, IpAddress};
use crate::network::{registry_insert, Network};
use crate::signal::SignalErr;

verus! {

/// The reply owed to a received datagram: a `PING` is answered by a `PONG`
/// and a `HELLO` by a `HELLO`, both sent back where the datagram came from;
/// every other header gets no reply.
pub open spec fn reply_of(dg: DatagramView) -> Option<DatagramView> {
    if dg.data.0 == Header::PING {
        Some(DatagramView { src: dg.dst, data: (Header::PONG, dg.data.1), dst: dg.src })
    } else if dg.data.0 == Header::HELLO {
        Some(DatagramView { src: dg.dst, data: dg.data, dst: dg.src })
    } else {
        None
    }
}

/// Handles one received datagram: a `HELLO` registers its sender (when
/// known) with the network; the result is the reply to queue for sending.
pub fn handler(net: &mut Network, dg: Datagram) -> (r: Option<Datagram>)
    ensures
        r is Some == reply_of(dg@) is Some,
        r is Some ==> r->Some_0@ == reply_of(dg@)->Some_0,
        (dg@.data.0 == Header::HELLO && dg@.src is Some)
            ==> final(net)@.clients == registry_insert(old(net)@.clients, dg@.src->Some_0).1,
        !(dg@.data.0 == Header::HELLO && dg@.src is Some) ==> final(net)@.clients == old(net)@.clients,
        final(net)@.server == old(net)@.server,
        final(net)@.gateway == old(net)@.gateway,
        final(net)@.broadcastable == old(net)@.broadcastable,
{
    let mut dg = dg;
    match dg.header() {
        Header::PING => {
            dg.swap();
            dg.set_header(Header::PONG);
            Some(dg)
        },
        Header::HELLO => {
            if let Some(peer) = dg.src() {
                net.insert(&peer);
            }
            dg.swap();
            dg.set_header(Header::HELLO);
            Some(dg)
        },
        _ => None,
    }
}

/// The views of a run of datagrams.
pub open spec fn dg_views(v: Seq<Datagram>) -> Seq<DatagramView> {
    v.map_values(|d: Datagram| d@)
}

/// The replies owed to a run of datagrams, in order, for those that get one.
pub open spec fn replies_of(dgs: Seq<DatagramView>) -> Seq<DatagramView>
    decreases dgs.len(),
{
    if dgs.len() == 0 {
        Seq::empty()
    } else {
        let rest = replies_of(dgs.drop_last());
        match reply_of(dgs.last()) {
            Some(r) => rest.push(r),
            None => rest,
        }
    }
}

/// The registry after a run of datagrams is handled: each `HELLO` with a known
/// sender registers that sender.
pub open spec fn registry_after(m: Map<IpAddress, Host>, dgs: Seq<DatagramView>) -> Map<IpAddress, Host>
    decreases dgs.len(),
{
    if dgs.len() == 0 {
        m
    } else {
        let before = registry_after(m, dgs.drop_last());
        let d = dgs.last();
        if d.data.0 == Header::HELLO && d.src is Some {
            registry_insert(before, d.src->Some_0).1
        } else {
            before
        }
    }
}

/// Handles a drained batch of received datagrams in order; the result is the
/// replies to queue for sending.
pub fn dispatch_batch(net: &mut Network, dgs: Vec<Datagram>) -> (r: Vec<Datagram>)
    ensures
        dg_views(r@) == replies_of(dg_views(dgs@)),
        final(net)@.clients == registry_after(old(net)@.clients, dg_views(dgs@)),
        final(net)@.server == old(net)@.server,
        final(net)@.gateway == old(net)@.gateway,
        final(net)@.broadcastable == old(net)@.broadcastable,
{
    let ghost start = net@;
    let ghost all = dg_views(dgs@);
    let mut r: Vec<Datagram> = Vec::new();
    let mut i: usize = 0;
    while i < dgs.len()
        invariant
            0 <= i <= dgs@.len(),
            all == dg_views(dgs@),
            dg_views(r@) == replies_of(all.subrange(0, i as int)),
            net@.clients == registry_after(start.clients, all.subrange(0, i as int)),
            net@.server == start.server,
            net@.gateway == start.gateway,
            net@.broadcastable == start.broadcastable,
        decreases dgs@.len() - i,
    {
        let dg = dgs[i].clone();
        let ghost prefix = all.subrange(0, i as int);
        let ghost next = all.subrange(0, i + 1);
        assert(next.drop_last() =~= prefix);
        assert(next.last() == dgs@[i as int]@);
        let ghost old_r = r@;
        match handler(net, dg) {
            Some(reply) => {
                r.push(reply);
                assert(dg_views(r@) =~= dg_views(old_r).push(reply@));
            },
            None => {},
        }
        i = i + 1;
    }
    assert(all.subrange(0, i as int) =~= all);
    r
}

/// A run of `HELLO`s from one client gets one `HELLO` back per datagram, each
/// addressed to the client, and leaves the client registered.
pub proof fn lemma_hello_run(m: Map<IpAddress, Host>, dgs: Seq<DatagramView>, client: Host)
    requires
        forall|i: int| 0 <= i < dgs.len() ==> (#[trigger] dgs[i]).data.0 == Header::HELLO && dgs[i].src == Some(client),
    ensures
        replies_of(dgs).len() == dgs.len(),
        forall|i: int| 0 <= i < dgs.len() ==> (#[trigger] replies_of(dgs)[i]).data.0 == Header::HELLO
            && replies_of(dgs)[i].dst == Some(client) && replies_of(dgs)[i].src == dgs[i].dst,
        dgs.len() > 0 ==> registry_after(m, dgs).contains_key(client.ip),
    decreases dgs.len(),
{
    if dgs.len() > 0 {
        let init = dgs.drop_last();
        assert forall|i: int| 0 <= i < init.len() implies (#[trigger] init[i]).data.0 == Header::HELLO && init[i].src == Some(client) by {
            assert(init[i] == dgs[i]);
        }
        lemma_hello_run(m, init, client);
        assert forall|i: int| 0 <= i < dgs.len() implies (#[trigger] replies_of(dgs)[i]).data.0 == Header::HELLO
            && replies_of(dgs)[i].dst == Some(client) && replies_of(dgs)[i].src == dgs[i].dst by {
            if i < dgs.len() - 1 {
                assert(replies_of(dgs)[i] == replies_of(init)[i]);
                assert(init[i] == dgs[i]);
            }
        }
    }
}

/// A run of `PING`s gets one `PONG` back per datagram, in order, each with its
/// payload and with source and destination swapped; the registry is left as
/// it was.
pub proof fn lemma_ping_run(m: Map<IpAddress, Host>, dgs: Seq<DatagramView>)
    requires
        forall|i: int| 0 <= i < dgs.len() ==> (#[trigger] dgs[i]).data.0 == Header::PING,
    ensures
        replies_of(dgs).len() == dgs.len(),
        forall|i: int| 0 <= i < dgs.len() ==> #[trigger] replies_of(dgs)[i] == (DatagramView {
            src: dgs[i].dst,
            data: (Header::PONG, dgs[i].data.1),
            dst: dgs[i].src,
        }),
        registry_after(m, dgs) == m,
    decreases dgs.len(),
{
    if dgs.len() > 0 {
        let init = dgs.drop_last();
        assert forall|i: int| 0 <= i < init.len() implies (#[trigger] init[i]).data.0 == Header::PING by {
            assert(init[i] == dgs[i]);
        }
        lemma_ping_run(m, init);
        assert forall|i: int| 0 <= i < dgs.len() implies #[trigger] replies_of(dgs)[i] == (DatagramView {
            src: dgs[i].dst,
            data: (Header::PONG, dgs[i].data.1),
            dst: dgs[i].src,
        }) by {
            if i < dgs.len() - 1 {
                assert(replies_of(dgs)[i] == replies_of(init)[i]);
                assert(init[i] == dgs[i]);
            }
        }
    }
}

/// A run of `UNKNOWN`s gets no reply and leaves the registry as it was.
pub proof fn lemma_unknown_run(m: Map<IpAddress, Host>, dgs: Seq<DatagramView>)
    requires
        forall|i: int| 0 <= i < dgs.len() ==> (#[trigger] dgs[i]).data.0 == Header::UNKNOWN,
    ensures
        replies_of(dgs).len() == 0,
        registry_after(m, dgs) == m,
    decreases dgs.len(),
{
    if dgs.len() > 0 {
        let init = dgs.drop_last();
        assert forall|i: int| 0 <= i < init.len() implies (#[trigger] init[i]).data.0 == Header::UNKNOWN by {
            assert(init[i] == dgs[i]);
        }
        lemma_unknown_run(m, init);
    }
}

/// Whether what a worker's backbone subscription answered means "shut down":
/// any value, or any error (the backbone is gone).
pub fn shutdown_requested<T>(answer: &Result<Option<T>, SignalErr>) -> (r: bool)
    ensures
        r == !(answer matches Ok(None)),
{
    match answer {
        Ok(None) => false,
        _ => true,
    }
}

} // verus!
