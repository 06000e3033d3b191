//! Identifiers of the programs and accounts that instructions refer to.
use vstd::prelude::*;

verus! {

/// The delegation-managing program.
pub const DELEGATION_PROGRAM_ID: [u8; 32] = [
    181, 183, 0, 225, 242, 87, 58, 192, 204, 6, 34, 1, 52, 74, 207, 151, 184, 53, 6, 235, 140,
    229, 25, 152, 204, 98, 126, 24, 147, 128, 167, 62,
];

/// The validator that hosts the ephemeral layer in Europe.
pub const EU_VALIDATOR: [u8; 32] = [
    5, 46, 216, 201, 117, 232, 101, 189, 21, 181, 158, 92, 54, 79, 250, 98, 161, 84, 255, 220,
    80, 80, 200, 90, 223, 211, 97, 80, 120, 46, 238, 207,
];

/// The ephemeral execution ("magic") program.
pub const MAGIC_PROGRAM_ID: [u8; 32] = [
    5, 69, 180, 36, 176, 218, 112, 149, 236, 185, 214, 222, 195, 119, 215, 40, 145, 182, 231,
    142, 146, 234, 18, 214, 223, 187, 58, 64, 0, 0, 0, 0,
];

/// The ephemeral execution context account.
pub const MAGIC_CONTEXT_ID: [u8; 32] = [
    5, 69, 180, 36, 196, 165, 40, 191, 95, 180, 3, 47, 68, 82, 130, 142, 187, 56, 171, 193,
    210, 220, 151, 247, 63, 139, 148, 84, 128, 0, 0, 0,
];

/// The host ledger's system program.
pub const SYSTEM_PROGRAM_ID: [u8; 32] = [
    0, 0, 0, 0, 0, 0, 0, 0, 0, 0, 0, 0, 0, 0, 0, 0, 0, 0, 0, 0, 0, 0, 0, 0, 0, 0, 0, 0, 0, 0, 0,
    0,
];

/// The host ledger's rent sysvar.
pub const RENT_SYSVAR_ID: [u8; 32] = [
    6, 167, 213, 23, 25, 44, 92, 81, 33, 140, 201, 76, 61, 74, 241, 127, 88, 218, 238, 8, 155,
    161, 253, 68, 227, 219, 217, 138, 0, 0, 0, 0,
];

/// The identifiers one deployment uses, chosen once and passed to every call.
#[derive(Clone, Copy, Debug, PartialEq, Eq)]
pub struct Config {
    /// The state-storage program.
    pub program_id: [u8; 32],
    pub delegation_program_id: [u8; 32],
    pub magic_program_id: [u8; 32],
    pub magic_context_id: [u8; 32],
    /// The validator that takes delegated accounts.
    pub validator_id: [u8; 32],
    pub system_program_id: [u8; 32],
    pub rent_sysvar_id: [u8; 32],
}

impl Config {
    /// A deployment of the state-storage program `program_id` on the
    /// ledger's standard delegation and ephemeral-execution programs.
    pub fn new(program_id: [u8; 32]) -> (r: Config)
        ensures
            r.program_id == program_id,
            r.delegation_program_id == DELEGATION_PROGRAM_ID,
            r.magic_program_id == MAGIC_PROGRAM_ID,
            r.magic_context_id == MAGIC_CONTEXT_ID,
            r.validator_id == EU_VALIDATOR,
            r.system_program_id == SYSTEM_PROGRAM_ID,
            r.rent_sysvar_id == RENT_SYSVAR_ID,
    {
        Config {
            program_id,
            delegation_program_id: DELEGATION_PROGRAM_ID,
            magic_program_id: MAGIC_PROGRAM_ID,
            magic_context_id: MAGIC_CONTEXT_ID,
            validator_id: EU_VALIDATOR,
            system_program_id: SYSTEM_PROGRAM_ID,
            rent_sysvar_id: RENT_SYSVAR_ID,
        }
    }
}

} // verus!
