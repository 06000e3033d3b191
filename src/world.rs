//! The world record and the instructions that create, delegate and write it.
use vstd::prelude::*;
use vstd::string::StringSliceAdditionalSpecFns;

use crate::bytes::{append_slice, array_from_slice, slice_range};
use crate::config::Config;
use crate::error::WorldError;
use crate::instructions::{
    create_accounts, create_world_ix, delegate_account_ix, delegate_accounts, delegation_addresses,
    encoded, Instruction,
};
use crate::lifecycle::{write_ix, write_layer_of, DelegationState, Layer};
use crate::instructions::{base_write_accounts, ephemeral_write_accounts};
use crate::mojo_types::MojoInstructions;
use crate::pda::{find_world_pda, sha256_of, world_material, world_pda, world_seed_hash};

verus! {

/// Byte length of an encoded world record.
pub const WORLD_LEN: usize = 64;

/// A world's on-chain record: who created it and its seed hash.
#[derive(Clone, Copy, Debug, PartialEq, Eq)]
pub struct World {
    pub creator: [u8; 32],
    pub seed: [u8; 32],
}

/// Padding-free layout of a world record: creator, then seed.
pub open spec fn world_bytes(w: World) -> Seq<u8> {
    w.creator@ + w.seed@
}

/// Seed hash of the world `name` owned by `owner`.
pub open spec fn world_seed(owner: [u8; 32], name: Seq<u8>) -> [u8; 32] {
    sha256_of(world_material(owner@, name))
}

/// The leading `required_len` bytes of account data, which must hold at least that many.
pub open spec fn state_prefix(data: Seq<u8>, required_len: usize) -> Result<Seq<u8>, ()> {
    if data.len() >= required_len {
        Ok(data.subrange(0, required_len as int))
    } else {
        Err(())
    }
}

impl World {
    /// The record's 64 bytes.
    pub fn to_bytes(&self) -> (r: Vec<u8>)
        ensures
            r@ == world_bytes(*self),
    {
        let mut r: Vec<u8> = Vec::with_capacity(WORLD_LEN);
        append_slice(&mut r, self.creator.as_slice());
        append_slice(&mut r, self.seed.as_slice());
        r
    }

    /// Reads a record from the start of account data; data shorter than
    /// the record gives `SerializationError`.
    pub fn from_bytes(data: &[u8]) -> (r: Result<World, WorldError>)
        ensures
            r is Ok <==> data@.len() >= WORLD_LEN,
            r matches Err(e) ==> e is SerializationError,
            r matches Ok(w) ==> world_bytes(w) == data@.subrange(0, 64),
    {
        if data.len() < WORLD_LEN {
            return Err(WorldError::SerializationError);
        }
        let creator = array_from_slice(data, 0);
        let seed = array_from_slice(data, 32);
        let w = World { creator, seed };
        assert(world_bytes(w) =~= data@.subrange(0, 64));
        Ok(w)
    }

    /// The creation instruction of the world `name` owned by `payer`, whose
    /// initial bytes are its record, with the world's address.
    pub fn create_world(config: &Config, payer: [u8; 32], name: &str) -> (r: Result<
        (Instruction, [u8; 32]),
        WorldError,
    >)
        ensures
            r is Ok <==> world_pda(*config, payer@, name.spec_bytes()) is Ok,
            r matches Err(e) ==> e is AddressDerivationError,
            r matches Ok((ix, addr)) ==> (world_pda(*config, payer@, name.spec_bytes()) matches Ok(p)
                && addr == p.0 && ix.program_id == config.program_id && ix.accounts@
                == create_accounts(*config, payer, addr) && ix.data@ == encoded(
                MojoInstructions::CreateAccount,
                world_seed(payer, name.spec_bytes())@,
                payer@ + world_seed(payer, name.spec_bytes())@,
            )),
    {
        let (world_pda, _bump) = find_world_pda(config, &payer, name)?;
        let seed_hash = world_seed_hash(&payer, name);
        let record = World { creator: payer, seed: seed_hash };
        let bytes = record.to_bytes();
        let ix = create_world_ix(config, payer, world_pda, seed_hash, bytes.as_slice());
        Ok((ix, world_pda))
    }

    /// The creation and the delegation instructions, in submission order, of
    /// the state `name` owned by `payer` with `initial_state` as its bytes,
    /// with the state's address.
    pub fn create_state(config: &Config, payer: [u8; 32], name: &str, initial_state: &[u8]) -> (r:
        Result<(Instruction, Instruction, [u8; 32]), WorldError>)
        ensures
            r is Ok <==> (world_pda(*config, payer@, name.spec_bytes()) matches Ok(p)
                && delegation_addresses(*config, p.0) is Some),
            r matches Err(e) ==> e is AddressDerivationError,
            r matches Ok((create, delegate, addr)) ==> (world_pda(
                *config,
                payer@,
                name.spec_bytes(),
            ) matches Ok(p) && addr == p.0 && (delegation_addresses(*config, addr) matches Some(
                (b, rec, m),
            ) && {
                &&& create.program_id == config.program_id
                &&& create.accounts@ == create_accounts(*config, payer, addr)
                &&& create.data@ == encoded(
                    MojoInstructions::CreateAccount,
                    world_seed(payer, name.spec_bytes())@,
                    initial_state@,
                )
                &&& delegate.program_id == config.program_id
                &&& delegate.accounts@ == delegate_accounts(*config, payer, addr, b, rec, m)
                &&& delegate.data@ == encoded(
                    MojoInstructions::DelegateAccount,
                    world_seed(payer, name.spec_bytes())@,
                    initial_state@,
                )
            })),
    {
        let (state_pda, _bump) = find_world_pda(config, &payer, name)?;
        let seed_hash = world_seed_hash(&payer, name);
        let ix = create_world_ix(config, payer, state_pda, seed_hash, initial_state);
        let delegate_ix = delegate_account_ix(config, payer, state_pda, seed_hash, initial_state)?;
        Ok((ix, delegate_ix, state_pda))
    }

    /// The write of `new_state` into the state `name` owned by `payer`, in the
    /// form its delegation state `state` calls for.
    pub fn write_state(
        config: &Config,
        state: DelegationState,
        payer: [u8; 32],
        name: &str,
        new_state: &[u8],
    ) -> (r: Result<Instruction, WorldError>)
        ensures
            r is Ok <==> world_pda(*config, payer@, name.spec_bytes()) is Ok && write_layer_of(
                state,
            ) is Some,
            r matches Err(e) ==> e is AddressDerivationError || e is InvalidLifecycleTransition,
            r matches Ok(ix) ==> (world_pda(*config, payer@, name.spec_bytes()) matches Ok(p) && {
                &&& ix.program_id == config.program_id
                &&& ix.data@ == encoded(
                    MojoInstructions::UpdateDelegatedAccount,
                    world_seed(payer, name.spec_bytes())@,
                    new_state@,
                )
                &&& write_layer_of(state) == Some(Layer::Base) ==> ix.accounts@
                    == base_write_accounts(payer, p.0)
                &&& write_layer_of(state) == Some(Layer::Ephemeral) ==> ix.accounts@
                    == ephemeral_write_accounts(*config, payer, p.0)
            }),
    {
        let (world_pda, _bump) = find_world_pda(config, &payer, name)?;
        let seed_hash = world_seed_hash(&payer, name);
        write_ix(config, state, payer, world_pda, seed_hash, new_state)
    }

    /// The leading `required_len` bytes of account data read back for a
    /// state; data shorter than that gives `SerializationError`.
    pub fn read_state(data: &[u8], required_len: usize) -> (r: Result<Vec<u8>, WorldError>)
        ensures
            r is Ok <==> data@.len() >= required_len,
            r matches Err(e) ==> e is SerializationError,
            r matches Ok(v) ==> v@ == data@.subrange(0, required_len as int),
    {
        if data.len() < required_len {
            return Err(WorldError::SerializationError);
        }
        Ok(slice_range(data, 0, required_len))
    }
}

} // verus!
