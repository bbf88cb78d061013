//! What holds of the pet, whatever calls are made.

use vstd::prelude::*;
use crate::host::{Env, MessageInfo};
use crate::pet::msg::ExecuteMsg;
use crate::pet::state::{Pet, PetStore, MAX_LEVEL};

verus! {

/// A new pet has its levels in range.
pub proof fn law_newborn_in_range(name: String, height: u64)
    ensures
        Pet::newborn(name, height).in_range(),
{
}

/// A call that goes through leaves a pet whose levels were in range with
/// its levels in range.
pub proof fn law_levels_stay_in_range(
    store: PetStore,
    env: &Env,
    info: &MessageInfo,
    msg: ExecuteMsg,
)
    requires
        store.pet is Some ==> store.pet->0.in_range(),
        store.can_execute(env, info, msg),
        store.executed(env, info, msg) is Ok,
    ensures
        store.executed(env, info, msg)->Ok_0.pet is Some ==> store.executed(
            env,
            info,
            msg,
        )->Ok_0.pet->0.in_range(),
{
}

/// Only the owner's calls go through.
pub proof fn law_only_owner_acts(store: PetStore, env: &Env, info: &MessageInfo, msg: ExecuteMsg)
    requires
        store.executed(env, info, msg) is Ok,
    ensures
        store.owner is Some,
        store.owner->0@ == info.sender@,
{
}

/// For a pet whose levels are in range the drift can be applied at every
/// block from its last action on, and a status can be reported as long as
/// the steps since then are no more than its happiness.
pub proof fn law_in_range_drifts_freely(pet: Pet, height: u64)
    requires
        pet.in_range(),
        height >= pet.last_action_block,
    ensures
        pet.can_drift(height),
        pet.drifted(height).in_range(),
        pet.steps_since(height) <= pet.happiness_level ==> pet.can_see_status(height),
{
}

/// The owner of a pet in range can always let it rest and play with it
/// from its last action on, and can feed it any amount up to its hunger
/// after the drift.
pub proof fn law_in_range_acts_freely(
    store: PetStore,
    env: &Env,
    info: &MessageInfo,
    amount: u8,
)
    requires
        store.pet is Some,
        store.pet->0.in_range(),
        env.block.height >= store.pet->0.last_action_block,
    ensures
        store.can_execute(env, info, ExecuteMsg::Rest { amount }),
        store.can_execute(env, info, ExecuteMsg::Play { amount }),
        amount <= store.pet->0.drifted(env.block.height).hunger_level ==> store.can_execute(
            env,
            info,
            ExecuteMsg::Feed { amount },
        ),
{
    law_in_range_drifts_freely(store.pet->0, env.block.height);
}

/// Time alone never makes a pet less hungry or happier: the drift up to a
/// later block leaves the hunger no lower, unless it was above the scale,
/// and the happiness no higher.
pub proof fn law_drift_is_one_way(pet: Pet, height: u64)
    requires
        pet.can_drift(height),
        pet.hunger_level <= MAX_LEVEL,
    ensures
        pet.drifted(height).hunger_level >= pet.hunger_level,
        pet.drifted(height).happiness_level <= pet.happiness_level,
{
}

} // verus!
