use mojo_world::config::{Config, MAGIC_CONTEXT_ID, MAGIC_PROGRAM_ID};
use mojo_world::error::WorldError;
use mojo_world::instructions::{
    create_world_ix, decode_instruction, delegate_account_ix, write_base_ix, write_to_world_ix, AccountMeta,
};
use mojo_world::lifecycle::{write_ix, DelegationState, Layer, LifecycleStep};
use mojo_world::mojo_types::MojoInstructions;
use mojo_world::pda::{find_world_pda, world_seed_hash};
use solana_pubkey::Pubkey;

fn config() -> Config {
    Config::new([17u8; 32])
}

fn meta(pubkey: [u8; 32], is_signer: bool, is_writable: bool) -> AccountMeta {
    AccountMeta { pubkey, is_signer, is_writable }
}

#[test]
fn create_world_scenario() {
    let c = config();
    let owner = [5u8; 32];
    let hash = world_seed_hash(&owner, "inventory");
    let (world_pda, _) = find_world_pda(&c, &owner, "inventory").unwrap();
    let initial = vec![1u8, 2, 3];
    let ix = create_world_ix(&c, owner, world_pda, hash, &initial);
    assert_eq!(ix.program_id, c.program_id);
    assert_eq!(
        ix.accounts,
        vec![
            meta(owner, true, true),
            meta(world_pda, false, true),
            meta(c.system_program_id, false, false),
            meta(c.rent_sysvar_id, false, false),
        ]
    );
    let d = decode_instruction(&ix.data).unwrap();
    assert_eq!(d.kind, MojoInstructions::CreateAccount);
    assert_eq!(d.seed_hash, hash);
    assert_eq!(d.payload, initial);
}

#[test]
fn delegate_account_list() {
    let c = config();
    let payer = [5u8; 32];
    let account = [6u8; 32];
    let ix = delegate_account_ix(&c, payer, account, [7u8; 32], &[1, 2]).unwrap();
    let buffer = Pubkey::find_program_address(&[b"buffer", &account], &Pubkey::new_from_array(c.program_id)).0;
    let deleg = Pubkey::new_from_array(c.delegation_program_id);
    let record = Pubkey::find_program_address(&[b"delegation", &account], &deleg).0;
    let metadata = Pubkey::find_program_address(&[b"delegation-metadata", &account], &deleg).0;
    assert_eq!(
        ix.accounts,
        vec![
            meta(payer, true, true),
            meta(account, false, true),
            meta(c.program_id, false, true),
            meta(buffer.to_bytes(), false, true),
            meta(record.to_bytes(), false, true),
            meta(metadata.to_bytes(), false, true),
            meta(c.system_program_id, false, true),
            meta(c.delegation_program_id, false, true),
            meta(c.validator_id, false, true),
        ]
    );
    assert_eq!(ix.data[0], 1);
    assert_eq!(&ix.data[41..], &[1, 2]);
}

#[test]
fn write_account_lists() {
    let c = config();
    let payer = [5u8; 32];
    let world = [6u8; 32];
    let e = write_to_world_ix(&c, payer, world, [7u8; 32], &[9]);
    assert_eq!(
        e.accounts,
        vec![
            meta(payer, true, true),
            meta(world, false, true),
            meta(MAGIC_CONTEXT_ID, false, false),
            meta(MAGIC_PROGRAM_ID, false, false),
        ]
    );
    assert_eq!(e.data[0], 3);
    let b = write_base_ix(&c, payer, world, [7u8; 32], &[9]);
    assert_eq!(b.accounts, vec![meta(payer, true, true), meta(world, false, true)]);
    assert_eq!(b.data, e.data);
}

#[test]
fn lifecycle_transitions() {
    let s = DelegationState::Undelegated;
    assert!(matches!(s.step(LifecycleStep::Undelegate), Err(WorldError::InvalidLifecycleTransition)));
    let s = s.step(LifecycleStep::Delegate).unwrap();
    assert_eq!(s, DelegationState::Delegating);
    let s = s.step(LifecycleStep::ConfirmDelegation).unwrap();
    assert_eq!(s, DelegationState::Delegated);
    assert!(s.step(LifecycleStep::Delegate).is_err());
    let s = s.step(LifecycleStep::Undelegate).unwrap();
    assert_eq!(s, DelegationState::Undelegating);
    assert!(matches!(s.write_layer(), Err(WorldError::InvalidLifecycleTransition)));
    let s = s.step(LifecycleStep::ConfirmUndelegation).unwrap();
    assert_eq!(s, DelegationState::Undelegated);
    assert_eq!(s.write_layer().unwrap(), Layer::Base);
}

#[test]
fn delegation_handshake_routes_writes_to_ephemeral_layer() {
    let c = config();
    let payer = [5u8; 32];
    let account = [6u8; 32];
    let seed = [7u8; 32];
    let magic_len = 4;

    let s = DelegationState::Undelegated;
    assert_eq!(write_ix(&c, s, payer, account, seed, &[1]).unwrap().accounts.len(), 2);
    let s = s.step(LifecycleStep::Delegate).unwrap();
    let w = write_ix(&c, s, payer, account, seed, &[1]).unwrap();
    assert_eq!(w.accounts.len(), magic_len);
    assert_eq!(w.accounts[2].pubkey, c.magic_context_id);
    assert_eq!(w.accounts[3].pubkey, c.magic_program_id);
    let s = s.step(LifecycleStep::ConfirmDelegation).unwrap();
    assert_eq!(write_ix(&c, s, payer, account, seed, &[1]).unwrap().accounts.len(), magic_len);
    let s = s.step(LifecycleStep::Undelegate).unwrap();
    assert!(matches!(
        write_ix(&c, s, payer, account, seed, &[1]),
        Err(WorldError::InvalidLifecycleTransition)
    ));
    let s = s.step(LifecycleStep::ConfirmUndelegation).unwrap();
    assert_eq!(write_ix(&c, s, payer, account, seed, &[1]).unwrap().accounts.len(), 2);
}
