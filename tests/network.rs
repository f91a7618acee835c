use toktok::datagram::Datagram;
use toktok::header::Header;
use toktok::host::{Host, IpAddress};
use toktok::network::Network;
use toktok::tlv::TLV;
use toktok::workers::{dispatch_batch, handler, shutdown_requested};
use toktok::signal::SignalErr;

fn v4(a: u8, b: u8, c: u8, d: u8, port: u16) -> Host {
    Host::from_parts(IpAddress::V4(u32::from_be_bytes([a, b, c, d])), port)
}

fn loopback_net(port: u16) -> Network {
    Network::new(v4(127, 255, 255, 255, port), None, true)
}

#[test]
fn test_insert_contains_remove() {
    let mut net: Network = loopback_net(4444);

    let one: Host = v4(127, 0, 0, 1, 1111);
    let two: Host = v4(127, 0, 0, 2, 2222);
    let three: Host = v4(127, 0, 0, 3, 3333);

    assert_eq!(true, net.insert(&one));
    assert_eq!(true, net.insert(&two));
    assert_eq!(true, net.insert(&three));

    assert_ne!(true, net.insert(&one));

    assert_eq!(true, net.remove(&two));

    assert_ne!(true, net.contains(&two));
}

#[test]
fn registry_is_keyed_by_ip() {
    let mut net = loopback_net(4000);
    let a = v4(10, 0, 0, 1, 1000);
    let same_ip = v4(10, 0, 0, 1, 2000);
    assert!(net.insert(&a));
    assert!(!net.insert(&same_ip));
    assert!(net.contains(&same_ip));
    assert_eq!(net.multicast_targets(), vec![a]);
    assert!(net.remove(&same_ip));
    assert!(!net.remove(&a));
    assert!(!net.contains(&a));
    assert!(net.multicast_targets().is_empty());
}

#[test]
fn multicast_targets_one_per_client() {
    let mut net = loopback_net(4445);
    let hosts = [v4(127, 0, 0, 1, 1111), v4(127, 0, 0, 2, 2222), v4(127, 0, 0, 3, 3333)];
    for h in hosts.iter() {
        assert!(net.insert(h));
    }
    let six = Host::from_parts(IpAddress::V6(1), 5000);
    assert!(net.insert(&six));
    let targets = net.multicast_targets();
    assert_eq!(targets.len(), 4);
    for h in hosts.iter() {
        assert!(targets.contains(h));
    }
    assert!(targets.contains(&six));
}

#[test]
fn broadcast_goes_to_gateway_when_allowed() {
    let gw = v4(127, 255, 255, 255, 4040);
    assert_eq!(Network::new(gw, None, true).broadcast_target(), Some(gw));
    assert_eq!(Network::new(gw, None, false).broadcast_target(), None);
    let srv = v4(127, 0, 0, 1, 3333);
    let net = Network::new(gw, Some(srv), true);
    assert_eq!(net.server(), Some(srv));
    assert_eq!(net.gateway(), gw);
    assert!(net.broadcastable());
}

#[test]
fn send_destination_prefers_override() {
    let dst = v4(127, 0, 0, 1, 8081);
    let other = v4(127, 0, 0, 9, 9);
    let dg = Datagram::new(None, TLV::new(Header::UNKNOWN, None).unwrap(), Some(dst));
    assert_eq!(Network::send_destination(&dg, None), Some(dst));
    assert_eq!(Network::send_destination(&dg, Some(other)), Some(other));
    let bare = Datagram::from_header(Header::PING);
    assert_eq!(Network::send_destination(&bare, None), None);
}

#[test]
fn received_bytes_become_datagrams() {
    let from = v4(127, 0, 0, 1, 4242);
    let dg = Network::received(from, vec![8, 2, 7, 8]);
    assert_eq!(dg.header(), Header::PING);
    assert_eq!(dg.data().payload(), vec![7, 8]);
    assert_eq!(dg.src(), Some(from));
    assert_eq!(dg.dst(), None);

    let junk = Network::received(from, vec![4, 9, 7]);
    assert_eq!(junk.header(), Header::UNKNOWN);
    assert_eq!(junk.data().length(), 0);
    assert_eq!(junk.src(), Some(from));
}

#[test]
fn datagram_swap_and_bytes() {
    let a = v4(127, 0, 0, 1, 1);
    let b = v4(127, 0, 0, 2, 2);
    let mut dg = Datagram::new(Some(a), TLV::new(Header::HELLO, Some(vec![1])).unwrap(), Some(b));
    dg.swap();
    assert_eq!(dg.src(), Some(b));
    assert_eq!(dg.dst(), Some(a));

    let mut half = Datagram::new(None, TLV::new(Header::HELLO, None).unwrap(), Some(b));
    half.swap();
    assert_eq!(half.src(), Some(b));
    assert_eq!(half.dst(), None);

    assert_eq!(dg.to_bytes(), vec![4, 1, 1]);
    let back = Datagram::from_bytes(Some(a), vec![4, 1, 1], None).unwrap();
    assert_eq!(back.header(), Header::HELLO);
    assert_eq!(back.data().payload(), vec![1]);
    assert!(Datagram::from_bytes(None, vec![4, 2, 1], None).is_none());

    let mut p = Datagram::from_tlv(TLV::new(Header::PING, Some(vec![3])).unwrap());
    p.set_header(Header::PONG);
    assert_eq!(p.header(), Header::PONG);
    assert_eq!(p.data().payload(), vec![3]);
}

#[test]
fn hello_registers_client_and_echoes() {
    let server = v4(127, 0, 0, 1, 3334);
    let client = v4(127, 0, 0, 1, 3333);
    let mut net = Network::new(v4(127, 255, 255, 255, 3333), None, true);
    let mut outcome: Vec<Datagram> = Vec::new();
    for _ in 0..100 {
        let dg = Datagram::new(Some(client), TLV::new(Header::HELLO, None).unwrap(), Some(server));
        if let Some(reply) = handler(&mut net, dg) {
            outcome.push(reply);
        }
    }
    assert_eq!(outcome.len(), 100);
    for dg in outcome.iter() {
        assert_eq!(dg.header(), Header::HELLO);
        assert_eq!(dg.dst(), Some(client));
        assert_eq!(dg.src(), Some(server));
    }
    assert!(net.contains(&client));
    assert_eq!(net.multicast_targets().len(), 1);
}

#[test]
fn ping_becomes_pong_with_swapped_hosts() {
    let server = v4(127, 0, 0, 1, 3334);
    let client = v4(127, 0, 0, 1, 3333);
    let mut net = Network::new(v4(127, 255, 255, 255, 3333), None, true);
    let mut outcome: Vec<Datagram> = Vec::new();
    for _ in 0..100 {
        let dg = Datagram::new(Some(client), TLV::new(Header::PING, Some(vec![1, 2])).unwrap(), Some(server));
        if let Some(reply) = handler(&mut net, dg) {
            outcome.push(reply);
        }
    }
    assert_eq!(outcome.len(), 100);
    for dg in outcome.iter() {
        assert_eq!(dg.header(), Header::PONG);
        assert_eq!(dg.src(), Some(server));
        assert_eq!(dg.dst(), Some(client));
        assert_eq!(dg.data().payload(), vec![1, 2]);
    }
    assert!(!net.contains(&client));
}

#[test]
fn unknown_and_others_are_dropped() {
    let client = v4(127, 0, 0, 1, 3333);
    let mut net = Network::new(v4(127, 255, 255, 255, 3333), None, true);
    let mut n = 0;
    for h in [Header::UNKNOWN, Header::PONG, Header::MULTIPLE].iter() {
        for _ in 0..100 {
            let dg = Datagram::new(Some(client), TLV::new(*h, None).unwrap(), None);
            if handler(&mut net, dg).is_some() {
                n += 1;
            }
        }
    }
    assert_eq!(n, 0);
    assert!(!net.contains(&client));
}

#[test]
fn backbone_answers() {
    assert!(!shutdown_requested::<()>(&Ok(None)));
    assert!(shutdown_requested(&Ok(Some(()))));
    assert!(shutdown_requested::<()>(&Err(SignalErr::NoSender)));
    assert!(shutdown_requested::<()>(&Err(SignalErr::NoHandler)));
}

fn batch(h: Header, n: usize, client: Host, server: Host) -> Vec<Datagram> {
    (0..n).map(|_| Datagram::new(Some(client), TLV::new(h, None).unwrap(), Some(server))).collect()
}

#[test]
fn batch_of_hellos_is_echoed_and_registered() {
    let server = v4(127, 0, 0, 1, 3334);
    let client = v4(127, 0, 0, 1, 3333);
    let mut net = Network::new(v4(127, 255, 255, 255, 3333), None, true);
    let replies = dispatch_batch(&mut net, batch(Header::HELLO, 100, client, server));
    assert_eq!(replies.len(), 100);
    assert!(replies.iter().all(|d| d.header() == Header::HELLO && d.dst() == Some(client)));
    assert!(net.contains(&client));
}

#[test]
fn batch_of_pings_becomes_pongs() {
    let server = v4(127, 0, 0, 1, 3334);
    let client = v4(127, 0, 0, 1, 3333);
    let mut net = Network::new(v4(127, 255, 255, 255, 3333), None, true);
    let replies = dispatch_batch(&mut net, batch(Header::PING, 100, client, server));
    assert_eq!(replies.len(), 100);
    assert!(replies.iter().all(|d| d.header() == Header::PONG && d.src() == Some(server) && d.dst() == Some(client)));
    assert!(!net.contains(&client));
}

#[test]
fn batch_of_unknowns_is_dropped() {
    let server = v4(127, 0, 0, 1, 3334);
    let client = v4(127, 0, 0, 1, 3333);
    let mut net = Network::new(v4(127, 255, 255, 255, 3333), None, true);
    let mut mixed = batch(Header::UNKNOWN, 100, client, server);
    assert!(dispatch_batch(&mut net, mixed.split_off(0)).is_empty());
    assert!(net.multicast_targets().is_empty());
    let mut both = batch(Header::PING, 2, client, server);
    both.extend(batch(Header::UNKNOWN, 3, client, server));
    both.extend(batch(Header::HELLO, 1, client, server));
    let replies = dispatch_batch(&mut net, both);
    let headers: Vec<Header> = replies.iter().map(|d| d.header()).collect();
    assert_eq!(headers, vec![Header::PONG, Header::PONG, Header::HELLO]);
}
