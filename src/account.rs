//! The account record that holds a user's named state.
use vstd::prelude::*;

verus! {

/// Logical state owned by a user: its owner, its name, unique per owner,
/// and its opaque bytes.
#[derive(Clone, Debug)]
pub struct WorldAccount {
    pub owner: [u8; 32],
    pub name: String,
    pub data: Vec<u8>,
}

} // verus!
