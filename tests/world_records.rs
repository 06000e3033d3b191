use mojo_world::config::Config;
use mojo_world::error::WorldError;
use mojo_world::lifecycle::DelegationState;
use mojo_world::pda::{find_world_pda, world_seed_hash};
use mojo_world::profile::uploader::ArweaveUploader;
use mojo_world::world::World;

#[test]
fn world_record_round_trip() {
    let w = World { creator: [1u8; 32], seed: [2u8; 32] };
    let b = w.to_bytes();
    assert_eq!(b.len(), 64);
    assert_eq!(&b[..32], &[1u8; 32]);
    assert_eq!(World::from_bytes(&b).unwrap(), w);
    let mut longer = b.clone();
    longer.extend_from_slice(&[9, 9]);
    assert_eq!(World::from_bytes(&longer).unwrap(), w);
    assert!(matches!(World::from_bytes(&b[..63]), Err(WorldError::SerializationError)));
}

#[test]
fn read_state_checks_length() {
    let data = vec![1u8, 2, 3, 4, 5];
    assert_eq!(World::read_state(&data, 3).unwrap(), vec![1, 2, 3]);
    assert_eq!(World::read_state(&data, 5).unwrap(), data);
    assert!(matches!(World::read_state(&data, 6), Err(WorldError::SerializationError)));
}

#[test]
fn create_world_carries_its_record() {
    let c = Config::new([17u8; 32]);
    let payer = [5u8; 32];
    let (ix, addr) = World::create_world(&c, payer, "inventory").unwrap();
    assert_eq!(addr, find_world_pda(&c, &payer, "inventory").unwrap().0);
    let seed = world_seed_hash(&payer, "inventory");
    let record = World { creator: payer, seed }.to_bytes();
    assert_eq!(&ix.data[41..], record.as_slice());
    assert_eq!(ix.accounts[1].pubkey, addr);
}

#[test]
fn create_state_creates_then_delegates() {
    let c = Config::new([17u8; 32]);
    let payer = [5u8; 32];
    let (create, delegate, addr) = World::create_state(&c, payer, "hp", &[4, 5]).unwrap();
    assert_eq!(create.data[0], 0);
    assert_eq!(delegate.data[0], 1);
    assert_eq!(create.accounts[1].pubkey, addr);
    assert_eq!(delegate.accounts[1].pubkey, addr);
    assert_eq!(delegate.accounts.len(), 9);
}

#[test]
fn write_state_follows_delegation_state() {
    let c = Config::new([17u8; 32]);
    let payer = [5u8; 32];
    let base = World::write_state(&c, DelegationState::Undelegated, payer, "hp", &[1]).unwrap();
    assert_eq!(base.accounts.len(), 2);
    let eph = World::write_state(&c, DelegationState::Delegated, payer, "hp", &[1]).unwrap();
    assert_eq!(eph.accounts.len(), 4);
    assert!(World::write_state(&c, DelegationState::Undelegating, payer, "hp", &[1]).is_err());
}

#[test]
fn uploader_uri() {
    let u = ArweaveUploader::new(None, None);
    assert_eq!(u.gateway_url(), "https://arweave.net");
    assert_eq!(u.uri_from_tx_id("abc"), "https://arweave.net/abc");
    let d = ArweaveUploader::default();
    assert!(d.wallet_path().is_none());
    let v = ArweaveUploader::new(Some("w.json".to_string()), Some("http://gw".to_string()));
    assert_eq!(v.uri_from_tx_id("x"), "http://gw/x");
    assert_eq!(v.wallet_path().unwrap(), "w.json");
}
