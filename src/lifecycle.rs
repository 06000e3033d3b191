//! Which layer holds write authority over an account, and how it moves.
use vstd::prelude::*;

use crate::config::Config;
use crate::error::WorldError;
use crate::instructions::{
    base_write_accounts, encoded, ephemeral_write_accounts, write_base_ix, write_to_world_ix,
    Instruction,
};
use crate::mojo_types::MojoInstructions;

verus! {

/// Delegation state of one account.
#[derive(Clone, Copy, Debug, PartialEq, Eq, Structural)]
pub enum DelegationState {
    /// Only the base layer holds the account.
    Undelegated,
    /// A delegation was submitted and the ephemeral layer has not acknowledged it.
    Delegating,
    /// The ephemeral layer holds write authority.
    Delegated,
    /// An undelegation was submitted and its state is flowing back.
    Undelegating,
}

/// A caller-driven transition.
#[derive(Clone, Copy, Debug, PartialEq, Eq, Structural)]
pub enum LifecycleStep {
    Delegate,
    ConfirmDelegation,
    Undelegate,
    ConfirmUndelegation,
}

/// The layer a write goes through.
#[derive(Clone, Copy, Debug, PartialEq, Eq, Structural)]
pub enum Layer {
    Base,
    Ephemeral,
}

/// The state after `step`, or `None` where the step is not allowed.
pub open spec fn next_state(s: DelegationState, step: LifecycleStep) -> Option<DelegationState> {
    match (s, step) {
        (DelegationState::Undelegated, LifecycleStep::Delegate) => Some(DelegationState::Delegating),
        (DelegationState::Delegating, LifecycleStep::ConfirmDelegation) => Some(
            DelegationState::Delegated,
        ),
        (DelegationState::Delegated, LifecycleStep::Undelegate) => Some(
            DelegationState::Undelegating,
        ),
        (DelegationState::Undelegating, LifecycleStep::ConfirmUndelegation) => Some(
            DelegationState::Undelegated,
        ),
        _ => None,
    }
}

/// The layer writes go through in state `s`; none while undelegating.
pub open spec fn write_layer_of(s: DelegationState) -> Option<Layer> {
    match s {
        DelegationState::Undelegated => Some(Layer::Base),
        DelegationState::Delegating => Some(Layer::Ephemeral),
        DelegationState::Delegated => Some(Layer::Ephemeral),
        DelegationState::Undelegating => None,
    }
}

/// The state reached from `s` by the steps in order, if each is allowed.
pub open spec fn run(s: DelegationState, steps: Seq<LifecycleStep>) -> Option<DelegationState>
    decreases steps.len(),
{
    if steps.len() == 0 {
        Some(s)
    } else {
        match run(s, steps.drop_last()) {
            Some(t) => next_state(t, steps.last()),
            None => None,
        }
    }
}

impl DelegationState {
    /// The state after `step`; `InvalidLifecycleTransition` where it is not allowed.
    pub fn step(self, step: LifecycleStep) -> (r: Result<DelegationState, WorldError>)
        ensures
            next_state(self, step) matches Some(t) ==> r == Ok::<DelegationState, WorldError>(t),
            next_state(self, step) is None ==> r matches Err(
                WorldError::InvalidLifecycleTransition,
            ),
    {
        match (self, step) {
            (DelegationState::Undelegated, LifecycleStep::Delegate) => Ok(
                DelegationState::Delegating,
            ),
            (DelegationState::Delegating, LifecycleStep::ConfirmDelegation) => Ok(
                DelegationState::Delegated,
            ),
            (DelegationState::Delegated, LifecycleStep::Undelegate) => Ok(
                DelegationState::Undelegating,
            ),
            (DelegationState::Undelegating, LifecycleStep::ConfirmUndelegation) => Ok(
                DelegationState::Undelegated,
            ),
            _ => Err(WorldError::InvalidLifecycleTransition),
        }
    }

    /// The layer writes go through; `InvalidLifecycleTransition` while undelegating.
    pub fn write_layer(self) -> (r: Result<Layer, WorldError>)
        ensures
            write_layer_of(self) matches Some(l) ==> r == Ok::<Layer, WorldError>(l),
            write_layer_of(self) is None ==> r matches Err(WorldError::InvalidLifecycleTransition),
    {
        match self {
            DelegationState::Undelegated => Ok(Layer::Base),
            DelegationState::Delegating => Ok(Layer::Ephemeral),
            DelegationState::Delegated => Ok(Layer::Ephemeral),
            DelegationState::Undelegating => Err(WorldError::InvalidLifecycleTransition),
        }
    }
}

/// The write of `state_data` into `account` that state `state` calls for:
/// the base-layer form when undelegated, the ephemeral-layer form once a
/// delegation was submitted, and `InvalidLifecycleTransition` while undelegating.
pub fn write_ix(
    config: &Config,
    state: DelegationState,
    payer: [u8; 32],
    account: [u8; 32],
    seed_hash: [u8; 32],
    state_data: &[u8],
) -> (r: Result<Instruction, WorldError>)
    ensures
        r is Ok <==> write_layer_of(state) is Some,
        r matches Err(e) ==> e is InvalidLifecycleTransition,
        r matches Ok(ix) ==> {
            &&& ix.program_id == config.program_id
            &&& ix.data@ == encoded(MojoInstructions::UpdateDelegatedAccount, seed_hash@, state_data@)
            &&& write_layer_of(state) == Some(Layer::Base) ==> ix.accounts@ == base_write_accounts(
                payer,
                account,
            )
            &&& write_layer_of(state) == Some(Layer::Ephemeral) ==> ix.accounts@
                == ephemeral_write_accounts(*config, payer, account)
        },
{
    match state.write_layer()? {
        Layer::Base => Ok(write_base_ix(config, payer, account, seed_hash, state_data)),
        Layer::Ephemeral => Ok(write_to_world_ix(config, payer, account, seed_hash, state_data)),
    }
}

/// Once a delegation was submitted, and until an undelegation is, every
/// allowed sequence of steps leaves writes on the ephemeral layer.
pub proof fn lemma_writes_stay_ephemeral(steps: Seq<LifecycleStep>)
    requires
        forall|i: int| 0 <= i < steps.len() ==> steps[i] != LifecycleStep::Undelegate,
    ensures
        next_state(DelegationState::Undelegated, LifecycleStep::Delegate) == Some(
            DelegationState::Delegating,
        ),
        run(DelegationState::Delegating, steps) matches Some(t) ==> write_layer_of(t) == Some(
            Layer::Ephemeral,
        ),
    decreases steps.len(),
{
    if steps.len() > 0 {
        let prefix = steps.drop_last();
        assert forall|i: int| 0 <= i < prefix.len() implies prefix[i] != LifecycleStep::Undelegate by {
            assert(prefix[i] == steps[i]);
        }
        lemma_writes_stay_ephemeral(prefix);
    }
}

} // verus!
