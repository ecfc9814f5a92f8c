use rand::Rng;
use verifyudp::stream::{datagram, deliver};
use verifyudp::{L3Addr, L4Addr, Registry, StreamHeader};

fn addr(d: u8, port: u16) -> L4Addr {
    L4Addr::new(L3Addr::newv4(192, 168, 1, d), port)
}

#[test]
fn second_insert_replaces_first() {
    let mut reg: Registry<&str> = Registry::new();
    assert_eq!(reg.insert(addr(1, 10), "first"), None);
    assert_eq!(reg.insert(addr(2, 10), "other"), None);
    assert_eq!(reg.insert(addr(1, 10), "second"), Some("first"));
    assert_eq!(reg.len(), 2);
    assert_eq!(reg.get(&addr(1, 10)), Some(&"second"));
    assert_eq!(reg.get(&addr(2, 10)), Some(&"other"));
}

#[test]
fn unregistered_address_is_dropped() {
    let mut reg: Registry<u32> = Registry::new();
    reg.insert(addr(1, 10), 1);
    reg.insert(addr(2, 20), 2);
    assert_eq!(reg.get(&addr(3, 10)), None);
    assert_eq!(reg.get(&addr(1, 11)), None);
    assert!(!reg.contains(&addr(3, 10)));
    assert_eq!(reg.get(&addr(1, 10)), Some(&1));
    assert_eq!(reg.get(&addr(2, 20)), Some(&2));
    assert_eq!(reg.len(), 2);
}

#[test]
fn v4_and_v6_addresses_differ() {
    let mut reg: Registry<u8> = Registry::new();
    let v4 = L4Addr::new(L3Addr::newv4(0, 0, 0, 1), 80);
    let v6 = L4Addr::new(L3Addr::V6(1), 80);
    reg.insert(v4, 4);
    reg.insert(v6, 6);
    assert_eq!(reg.get(&v4), Some(&4));
    assert_eq!(reg.get(&v6), Some(&6));
    assert_eq!(L3Addr::newv4(1, 2, 3, 4), L3Addr::V4(0x0102_0304));
    assert_eq!(v4.port(), 80);
    assert_eq!(v4.ip(), L3Addr::V4(1));
}

#[test]
fn concurrent_connections_receive_their_own_payloads_in_order() {
    const CONNECTIONS: usize = 4;
    const PAYLOADS: usize = 25;
    let mut rng = rand::thread_rng();
    let mut reg: Registry<usize> = Registry::new();
    for c in 0..CONNECTIONS {
        reg.insert(addr(c as u8 + 1, 7000 + c as u16), c);
    }
    // Interleave the connections' datagrams, with a stray source mixed in.
    let mut sent: Vec<Vec<Vec<u8>>> = vec![Vec::new(); CONNECTIONS];
    let mut arrivals: Vec<(L4Addr, Vec<u8>)> = Vec::new();
    for m in 0..PAYLOADS {
        for c in 0..CONNECTIONS {
            let len = rng.gen_range(1, 1401);
            let payload: Vec<u8> = (0..len).map(|_| rng.gen()).collect();
            sent[c].push(payload.clone());
            arrivals.push((addr(c as u8 + 1, 7000 + c as u16), payload));
        }
        arrivals.push((addr(200, m as u16), vec![0xff; 10]));
    }
    let header = StreamHeader::with_key(vec![4u8; 16], 0);
    let mut received: Vec<Vec<Vec<u8>>> = vec![Vec::new(); CONNECTIONS];
    for (from, bytes) in &arrivals {
        let (copy, len) = datagram(bytes, bytes.len());
        if let Some(&c) = reg.get(from) {
            let mut buf = Vec::new();
            let idx = deliver(&header, &header.clone(), &copy[..len], &[0], &mut buf).unwrap();
            assert_eq!(idx, vec![0]);
            received[c].push(buf);
        }
    }
    assert_eq!(received, sent);
}

#[test]
fn removal_drops_one_address_only() {
    let mut reg: Registry<u32> = Registry::new();
    reg.insert(addr(1, 10), 1);
    reg.insert(addr(2, 10), 2);
    reg.insert(addr(3, 10), 3);
    assert_eq!(reg.remove(&addr(1, 10)), Some(1));
    assert_eq!(reg.remove(&addr(1, 10)), None);
    assert_eq!(reg.get(&addr(1, 10)), None);
    assert_eq!(reg.get(&addr(2, 10)), Some(&2));
    assert_eq!(reg.get(&addr(3, 10)), Some(&3));
    assert_eq!(reg.len(), 2);
}
