use verifyudp::{
    random_string, sync_channel, ArtificeConfig, ArtificeHostData, AsyncRequest, ConnectionRequest,
    L3Addr, L4Addr, NetworkError, PeerList, PrivKeyComp, PubKeyComp, Query, SyncQuery,
};

struct OnlyKey(Vec<u8>);

impl PeerList for OnlyKey {
    fn verify_peer(&self, peer: &PubKeyComp) -> bool {
        peer.n() == &self.0[..]
    }
}

fn priv_key() -> PrivKeyComp {
    PrivKeyComp::new(vec![0xab, 0xcd], vec![1, 0, 1], vec![7], vec![vec![11], vec![13]])
}

#[test]
fn trusted_peer_is_accepted() {
    let key = priv_key().public_key();
    assert_eq!(key.n(), &[0xab, 0xcd]);
    assert_eq!(key.e(), &[1, 0, 1]);
    let req = AsyncRequest::new(17u32, key);
    assert_eq!(req.verify(&OnlyKey(vec![0xab, 0xcd])).unwrap(), 17);
}

#[test]
fn untrusted_peer_is_denied() {
    let req = AsyncRequest::new(17u32, PubKeyComp::new(vec![1], vec![3]));
    let r = req.verify(&OnlyKey(vec![2]));
    assert!(matches!(r, Err(NetworkError::ConnectionDenied(_))));
    let req = AsyncRequest::new(18u32, PubKeyComp::new(vec![1], vec![3]));
    assert_eq!(req.unverify(), 18);
}

#[test]
fn config_getters() {
    let addr = L4Addr::new(L3Addr::newv4(127, 0, 0, 1), 6432);
    let mut cfg = ArtificeConfig::new(addr, ArtificeHostData::new(priv_key()), true);
    assert!(cfg.broadcast());
    assert_eq!(cfg.port(), 6432);
    assert_eq!(cfg.addr(), L3Addr::newv4(127, 0, 0, 1));
    assert_eq!(cfg.socket_addr(), addr);
    assert_eq!(cfg.host_data().privkeycomp().d(), &[7]);
    assert_eq!(cfg.host_data().privkeycomp().primes().len(), 2);
    let other = L4Addr::new(L3Addr::newv4(0, 0, 0, 0), 3232);
    cfg.set_socket_addr(other);
    assert_eq!(cfg.socket_addr(), other);
    assert!(cfg.broadcast());
}

#[test]
fn random_strings_are_alphanumeric() {
    let s = random_string(65);
    assert_eq!(s.len(), 65);
    assert!(s.chars().all(|c| c.is_ascii_alphanumeric()));
    assert_eq!(random_string(0), "");
}

#[test]
fn sync_channel_pairs_cross() {
    let (mut a, mut b): (SyncQuery<u8, String>, SyncQuery<String, u8>) = sync_channel();
    a.send(5).unwrap();
    assert_eq!(b.recv().unwrap(), 5);
    b.send("back".to_string()).unwrap();
    assert_eq!(a.recv().unwrap(), "back");
    let (sender, receiver) = a.into_split();
    let mut again = SyncQuery::create(sender, receiver);
    again.send(6).unwrap();
    assert_eq!(b.recv().unwrap(), 6);
    drop(again);
    assert!(matches!(b.recv(), Err(NetworkError::SyncRecvError(_))));
    assert!(matches!(b.send("x".to_string()), Err(NetworkError::SyncSendError(_))));
}

#[test]
fn public_key_view_matches_parts() {
    let k = PubKeyComp::new(vec![9, 9], vec![3]);
    let c = k.clone();
    assert_eq!(c.n(), k.n());
}

#[test]
fn decide_follows_the_policy_answer() {
    let req = AsyncRequest::new(3u8, PubKeyComp::new(vec![1], vec![3]));
    assert_eq!(req.decide(true).unwrap(), 3);
    let req = AsyncRequest::new(4u8, PubKeyComp::new(vec![1], vec![3]));
    assert!(matches!(req.decide(false), Err(NetworkError::ConnectionDenied(_))));
}
