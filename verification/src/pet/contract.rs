//! The pet's calls: creating it, acting on it as its owner, and asking
//! about it with the password.

use vstd::prelude::*;
use crate::account::AccountId;
use crate::host::{Env, MessageInfo};
use crate::pet::error::PetError;
use crate::pet::msg::{ExecuteMsg, InstantiateMsg, QueryAnswer, QueryMsg};
use crate::pet::state::{least, Pet, PetStore, HUNGRY_FROM, MAX_LEVEL};
use crate::response::{Response, TransferView};

verus! {

impl PetStore {
    /// The store after the pet is created, or why it is not: a pet needs a
    /// name. The owner is the one that `msg` names, else the sender.
    pub open spec fn instantiated(self, env: &Env, info: &MessageInfo, msg: InstantiateMsg) -> Result<
        PetStore,
        PetError,
    > {
        if msg.name@.len() == 0 {
            Err(PetError::EmptyName)
        } else {
            Ok(
                PetStore {
                    owner: Some(
                        match msg.owner {
                            Some(owner) => owner,
                            None => info.sender,
                        },
                    ),
                    pet: Some(Pet::newborn(msg.name, env.block.height)),
                    password: self.password,
                },
            )
        }
    }

    /// Why `sender` may not act as the owner, if so.
    pub open spec fn owner_error(self, sender: Seq<char>) -> Option<PetError> {
        match self.owner {
            None => Some(PetError::OwnerNotFound),
            Some(owner) => if owner@ != sender {
                Some(PetError::Unauthorised)
            } else {
                None
            },
        }
    }

    /// Why `sender` may not act on the pet with `amount`, if so: the
    /// sender must be the owner, and the amount at most 10.
    pub open spec fn action_error(self, sender: Seq<char>, amount: u8) -> Option<PetError> {
        if self.owner_error(sender) is Some {
            self.owner_error(sender)
        } else if amount > MAX_LEVEL {
            Some(PetError::AmountOutOfRange)
        } else {
            None
        }
    }

    /// Why `password` does not open the store to a query, if so.
    pub open spec fn password_error(self, password: Seq<char>) -> Option<PetError> {
        match self.password {
            None => Some(PetError::PasswordNotFound),
            Some(stored) => if stored@ != password {
                Some(PetError::IncorrectPassword)
            } else {
                None
            },
        }
    }

    /// The store with `pet` in the pet's slot.
    pub open spec fn with_pet(self, pet: Pet) -> PetStore {
        PetStore { pet: Some(pet), ..self }
    }

    /// The store after `sender` has set the password.
    pub open spec fn password_set(self, sender: Seq<char>, password: String) -> Result<
        PetStore,
        PetError,
    > {
        match self.owner_error(sender) {
            Some(error) => Err(error),
            None => Ok(PetStore { password: Some(password), ..self }),
        }
    }

    /// Whether the drift up to block `height` can be applied to the stored
    /// pet.
    pub open spec fn can_update(self, height: u64) -> bool {
        self.pet is Some && self.pet->0.can_drift(height)
    }

    /// Whether `sender` can feed the pet `amount` at block `height`: if
    /// the call is let through, the drift can be applied and the amount is
    /// no more than the hunger then.
    pub open spec fn can_feed(self, height: u64, sender: Seq<char>, amount: u8) -> bool {
        self.action_error(sender, amount) is None ==> self.can_update(height) && amount
            <= self.pet->0.drifted(height).hunger_level
    }

    /// The store after `sender` has fed the pet `amount` at block
    /// `height`: the drift is applied and the hunger lowered by the
    /// amount.
    pub open spec fn fed(self, height: u64, sender: Seq<char>, amount: u8) -> Result<
        PetStore,
        PetError,
    > {
        match self.action_error(sender, amount) {
            Some(error) => Err(error),
            None => {
                let pet = self.pet->0.drifted(height);
                Ok(
                    self.with_pet(
                        Pet { hunger_level: (pet.hunger_level - amount) as u8, ..pet },
                    ),
                )
            },
        }
    }

    /// Whether `sender` can play with the pet at block `height`: if the
    /// call is let through, the drift can be applied, and the happiness
    /// with the amount added fits in a byte where the pet has the energy.
    pub open spec fn can_play(self, height: u64, sender: Seq<char>, amount: u8) -> bool {
        self.action_error(sender, amount) is None ==> self.can_update(height) && (
        self.pet->0.drifted(height).energy_level >= 1 ==> self.pet->0.drifted(
            height,
        ).happiness_level + amount <= u8::MAX)
    }

    /// The store after `sender` has played with the pet at block `height`:
    /// the drift is applied, the happiness raised by the amount to at most
    /// 10, and one point of energy spent. A pet without energy does not
    /// play.
    pub open spec fn played(self, height: u64, sender: Seq<char>, amount: u8) -> Result<
        PetStore,
        PetError,
    > {
        match self.action_error(sender, amount) {
            Some(error) => Err(error),
            None => {
                let pet = self.pet->0.drifted(height);
                if pet.energy_level < 1 {
                    Err(PetError::NotEnoughEnergy)
                } else {
                    Ok(
                        self.with_pet(
                            Pet {
                                happiness_level: least(
                                    pet.happiness_level + amount,
                                    MAX_LEVEL as int,
                                ) as u8,
                                energy_level: (pet.energy_level - 1) as u8,
                                ..pet
                            },
                        ),
                    )
                }
            },
        }
    }

    /// Whether `sender` can let the pet rest at block `height`: if the
    /// call is let through, the drift can be applied.
    pub open spec fn can_rest(self, height: u64, sender: Seq<char>, amount: u8) -> bool {
        self.action_error(sender, amount) is None ==> self.can_update(height)
    }

    /// The store after `sender` has let the pet rest at block `height`:
    /// the drift is applied and the energy raised by the amount to at
    /// most 10.
    pub open spec fn rested(self, height: u64, sender: Seq<char>, amount: u8) -> Result<
        PetStore,
        PetError,
    > {
        match self.action_error(sender, amount) {
            Some(error) => Err(error),
            None => {
                let pet = self.pet->0.drifted(height);
                Ok(
                    self.with_pet(
                        Pet {
                            energy_level: least(
                                pet.energy_level + amount,
                                MAX_LEVEL as int,
                            ) as u8,
                            ..pet
                        },
                    ),
                )
            },
        }
    }

    /// The store after `sender` has handed the pet over. The sender must
    /// be the owner; then a refused address fails with the validator's
    /// reason, and a validated one becomes the owner.
    pub open spec fn transferred(self, sender: Seq<char>, new_owner: Result<AccountId, String>) -> Result<
        PetStore,
        PetError,
    > {
        match self.owner_error(sender) {
            Some(error) => Err(error),
            None => match new_owner {
                Err(reason) => Err(PetError::InvalidAddress(reason)),
                Ok(account) => Ok(PetStore { owner: Some(account), ..self }),
            },
        }
    }

    /// Whether the call `msg` can be carried out.
    pub open spec fn can_execute(self, env: &Env, info: &MessageInfo, msg: ExecuteMsg) -> bool {
        match msg {
            ExecuteMsg::Feed { amount } => self.can_feed(env.block.height, info.sender@, amount),
            ExecuteMsg::Play { amount } => self.can_play(env.block.height, info.sender@, amount),
            ExecuteMsg::Rest { amount } => self.can_rest(env.block.height, info.sender@, amount),
            _ => true,
        }
    }

    /// The store after the call `msg`, or why the call fails.
    pub open spec fn executed(self, env: &Env, info: &MessageInfo, msg: ExecuteMsg) -> Result<
        PetStore,
        PetError,
    > {
        match msg {
            ExecuteMsg::SetPassword { password } => self.password_set(info.sender@, password),
            ExecuteMsg::Feed { amount } => self.fed(env.block.height, info.sender@, amount),
            ExecuteMsg::Play { amount } => self.played(env.block.height, info.sender@, amount),
            ExecuteMsg::Rest { amount } => self.rested(env.block.height, info.sender@, amount),
            ExecuteMsg::Transfer { new_owner } => self.transferred(info.sender@, new_owner),
        }
    }

    /// Why a query with `password` is not answered, if so: the password
    /// must be the stored one, and there must be a pet.
    pub open spec fn query_error(self, password: Seq<char>) -> Option<PetError> {
        if self.password_error(password) is Some {
            self.password_error(password)
        } else if self.pet is None {
            Some(PetError::PetNotFound)
        } else {
            None
        }
    }

    /// Whether the hunger can be reported at block `height` to a query
    /// with `password`.
    pub open spec fn can_tell_hunger(self, height: u64, password: Seq<char>) -> bool {
        self.query_error(password) is None ==> self.pet->0.can_see_hunger(height)
    }

    /// Whether the status can be reported at block `height` to a query
    /// with `password`.
    pub open spec fn can_tell_status(self, height: u64, password: Seq<char>) -> bool {
        self.query_error(password) is None ==> self.pet->0.can_see_status(height)
    }

    /// Whether the pet is hungry at block `height`: its reported hunger is
    /// 7 or more.
    pub open spec fn hungry(self, height: u64, password: Seq<char>) -> Result<
        QueryAnswer,
        PetError,
    > {
        match self.query_error(password) {
            Some(error) => Err(error),
            None => Ok(
                QueryAnswer::IsHungry {
                    is_hungry: self.pet->0.seen_hunger(height) >= HUNGRY_FROM,
                },
            ),
        }
    }

    /// The pet's status at block `height`: its name, its reported hunger,
    /// its happiness less the counted drift, and its stored energy.
    pub open spec fn status(self, height: u64, password: Seq<char>) -> Result<
        QueryAnswer,
        PetError,
    > {
        match self.query_error(password) {
            Some(error) => Err(error),
            None => Ok(
                QueryAnswer::GetStatus {
                    name: self.pet->0.name,
                    hunger_level: self.pet->0.seen_hunger(height) as u8,
                    happiness_level: (self.pet->0.happiness_level - self.pet->0.seen_drift(
                        height,
                    )) as u8,
                    energy_level: self.pet->0.energy_level,
                },
            ),
        }
    }

    /// Whether the query `msg` can be answered at block `height`.
    pub open spec fn can_answer(self, height: u64, msg: QueryMsg) -> bool {
        match msg {
            QueryMsg::IsHungry { password } => self.can_tell_hunger(height, password@),
            QueryMsg::GetStatus { password } => self.can_tell_status(height, password@),
        }
    }

    /// The answer to the query `msg` at block `height`.
    pub open spec fn answer(self, height: u64, msg: QueryMsg) -> Result<QueryAnswer, PetError> {
        match msg {
            QueryMsg::IsHungry { password } => self.hungry(height, password@),
            QueryMsg::GetStatus { password } => self.status(height, password@),
        }
    }
}

/// Whether a call that was to take the store from `before` to `expected`
/// ended as it should: with no transfers and the expected store, or with
/// the expected error and the store as before.
pub open spec fn settled(
    before: PetStore,
    after: PetStore,
    done: Result<Response, PetError>,
    expected: Result<PetStore, PetError>,
) -> bool {
    match expected {
        Ok(next) => done is Ok && done->Ok_0@ == Seq::<TransferView>::empty() && after == next,
        Err(error) => done == Err::<Response, PetError>(error) && after == before,
    }
}

/// Creates the pet at the block of `env`, with every level at 5. Its owner
/// is the one that `msg` names, else the sender. Fails with `EmptyName`
/// for an empty name.
pub fn instantiate(store: &mut PetStore, env: &Env, info: &MessageInfo, msg: InstantiateMsg) -> (done:
    Result<Response, PetError>)
    ensures
        settled(*old(store), *final(store), done, old(store).instantiated(env, info, msg)),
{
    let owner = match msg.owner {
        Some(owner) => owner,
        None => info.sender.clone(),
    };
    if msg.name.as_str().is_empty() {
        return Err(PetError::EmptyName);
    }
    let pet = Pet::new(msg.name, env.block.height);
    store.owner = Some(owner);
    store.pet = Some(pet);
    Ok(Response::default())
}

/// Passes for the owner; fails with `OwnerNotFound` while no owner is
/// stored, else with `Unauthorised`.
pub fn check_owner(store: &PetStore, sender: &AccountId) -> (check: Result<(), PetError>)
    ensures
        match store.owner_error(sender@) {
            Some(error) => check == Err::<(), PetError>(error),
            None => check is Ok,
        },
{
    match &store.owner {
        None => Err(PetError::OwnerNotFound),
        Some(owner) => {
            if !sender.same(owner) {
                Err(PetError::Unauthorised)
            } else {
                Ok(())
            }
        },
    }
}

/// Whether the call `msg` can be carried out: whether [`execute`] is
/// defined for it. A call that is turned down can always be carried out;
/// one that is let through cannot where the block of `env` lies before the
/// pet's last action or a level would leave the range of a byte.
pub fn check_execute(store: &PetStore, env: &Env, info: &MessageInfo, msg: &ExecuteMsg) -> (possible:
    bool)
    ensures
        possible == store.can_execute(env, info, *msg),
{
    let height = env.block.height;
    match msg {
        ExecuteMsg::Feed { amount } => {
            if check_action(store, &info.sender, *amount).is_err() {
                return true;
            }
            match &store.pet {
                None => false,
                Some(pet) => pet.check_drift(height) && *amount <= pet.drift_to(
                    height,
                ).hunger_level,
            }
        },
        ExecuteMsg::Play { amount } => {
            if check_action(store, &info.sender, *amount).is_err() {
                return true;
            }
            match &store.pet {
                None => false,
                Some(pet) => {
                    if !pet.check_drift(height) {
                        return false;
                    }
                    let drifted = pet.drift_to(height);
                    drifted.energy_level < 1 || drifted.happiness_level <= u8::MAX - *amount
                },
            }
        },
        ExecuteMsg::Rest { amount } => {
            if check_action(store, &info.sender, *amount).is_err() {
                return true;
            }
            match &store.pet {
                None => false,
                Some(pet) => pet.check_drift(height),
            }
        },
        _ => true,
    }
}

/// Carries out the call `msg`, sent as `info` says at the block of `env`.
pub fn execute(store: &mut PetStore, env: &Env, info: &MessageInfo, msg: ExecuteMsg) -> (done: Result<
    Response,
    PetError,
>)
    requires
        old(store).can_execute(env, info, msg),
    ensures
        settled(*old(store), *final(store), done, old(store).executed(env, info, msg)),
{
    match msg {
        ExecuteMsg::SetPassword { password } => try_set_password(store, info, password),
        ExecuteMsg::Feed { amount } => try_feed(store, env, info, amount),
        ExecuteMsg::Play { amount } => try_play(store, env, info, amount),
        ExecuteMsg::Rest { amount } => try_rest(store, env, info, amount),
        ExecuteMsg::Transfer { new_owner } => try_transfer(store, info, new_owner),
    }
}

/// Sets the password that queries must present. For the owner alone.
pub fn try_set_password(store: &mut PetStore, info: &MessageInfo, password: String) -> (done: Result<
    Response,
    PetError,
>)
    ensures
        settled(*old(store), *final(store), done, old(store).password_set(info.sender@, password)),
{
    match check_owner(store, &info.sender) {
        Err(error) => {
            return Err(error);
        },
        Ok(()) => {},
    }
    store.password = Some(password);
    Ok(Response::default())
}

/// The stored pet with the drift up to the block of `env` applied, as
/// [`update_state`] would store it. Fails with `PetNotFound` without a
/// pet.
pub fn updated_pet(store: &PetStore, env: &Env) -> (pet: Result<Pet, PetError>)
    requires
        store.pet is Some ==> store.pet->0.can_drift(env.block.height),
    ensures
        match store.pet {
            Some(stored) => pet == Ok::<Pet, PetError>(stored.drifted(env.block.height)),
            None => pet == Err::<Pet, PetError>(PetError::PetNotFound),
        },
{
    match &store.pet {
        Some(stored) => Ok(stored.drift_to(env.block.height)),
        None => Err(PetError::PetNotFound),
    }
}

/// Applies the drift up to the block of `env` to the stored pet, stores
/// the result and returns it: hunger up by one for every ten blocks since
/// the last action, ten at most, and no higher than 10; happiness down by
/// as much, and no lower than 0; energy no higher than 10. Fails with
/// `PetNotFound` without a pet.
pub fn update_state(store: &mut PetStore, env: &Env) -> (pet: Result<Pet, PetError>)
    requires
        old(store).pet is Some ==> old(store).pet->0.can_drift(env.block.height),
    ensures
        match old(store).pet {
            Some(stored) => pet == Ok::<Pet, PetError>(stored.drifted(env.block.height))
                && *final(store) == old(store).with_pet(stored.drifted(env.block.height)),
            None => pet == Err::<Pet, PetError>(PetError::PetNotFound) && *final(store) == *old(
                store,
            ),
        },
{
    let pet = match updated_pet(store, env) {
        Ok(pet) => pet,
        Err(error) => {
            return Err(error);
        },
    };
    store.pet = Some(pet.clone());
    Ok(pet)
}

/// Passes where `sender` is the owner and `amount` is at most 10; fails
/// as [`check_owner`], else with `AmountOutOfRange`.
pub fn check_action(store: &PetStore, sender: &AccountId, amount: u8) -> (check: Result<
    (),
    PetError,
>)
    ensures
        match store.action_error(sender@, amount) {
            Some(error) => check == Err::<(), PetError>(error),
            None => check is Ok,
        },
{
    match check_owner(store, sender) {
        Err(error) => {
            return Err(error);
        },
        Ok(()) => {},
    }
    if amount > MAX_LEVEL {
        return Err(PetError::AmountOutOfRange);
    }
    Ok(())
}

/// Feeds the pet: applies the drift, then lowers the hunger by `amount`.
/// For the owner alone, with an amount of at most 10.
pub fn try_feed(store: &mut PetStore, env: &Env, info: &MessageInfo, amount: u8) -> (done: Result<
    Response,
    PetError,
>)
    requires
        old(store).can_feed(env.block.height, info.sender@, amount),
    ensures
        settled(
            *old(store),
            *final(store),
            done,
            old(store).fed(env.block.height, info.sender@, amount),
        ),
{
    match check_action(store, &info.sender, amount) {
        Err(error) => {
            return Err(error);
        },
        Ok(()) => {},
    }
    let mut pet = updated_pet(store, env).unwrap();
    pet.hunger_level = pet.hunger_level - amount;
    store.pet = Some(pet);
    Ok(Response::default())
}

/// Plays with the pet: applies the drift, then raises the happiness by
/// `amount` to at most 10 and spends one point of energy. For the owner
/// alone, with an amount of at most 10; fails with `NotEnoughEnergy` for a
/// pet without energy.
pub fn try_play(store: &mut PetStore, env: &Env, info: &MessageInfo, amount: u8) -> (done: Result<
    Response,
    PetError,
>)
    requires
        old(store).can_play(env.block.height, info.sender@, amount),
    ensures
        settled(
            *old(store),
            *final(store),
            done,
            old(store).played(env.block.height, info.sender@, amount),
        ),
{
    match check_action(store, &info.sender, amount) {
        Err(error) => {
            return Err(error);
        },
        Ok(()) => {},
    }
    let mut pet = updated_pet(store, env).unwrap();
    if pet.energy_level < 1 {
        return Err(PetError::NotEnoughEnergy);
    }
    let raised: u8 = pet.happiness_level + amount;
    pet.happiness_level = if raised < MAX_LEVEL {
        raised
    } else {
        MAX_LEVEL
    };
    pet.energy_level = pet.energy_level - 1;
    store.pet = Some(pet);
    Ok(Response::default())
}

/// Lets the pet rest: applies the drift, then raises the energy by
/// `amount` to at most 10. For the owner alone, with an amount of at most
/// 10.
pub fn try_rest(store: &mut PetStore, env: &Env, info: &MessageInfo, amount: u8) -> (done: Result<
    Response,
    PetError,
>)
    requires
        old(store).can_rest(env.block.height, info.sender@, amount),
    ensures
        settled(
            *old(store),
            *final(store),
            done,
            old(store).rested(env.block.height, info.sender@, amount),
        ),
{
    match check_action(store, &info.sender, amount) {
        Err(error) => {
            return Err(error);
        },
        Ok(()) => {},
    }
    let mut pet = updated_pet(store, env).unwrap();
    let raised: u8 = pet.energy_level + amount;
    pet.energy_level = if raised < MAX_LEVEL {
        raised
    } else {
        MAX_LEVEL
    };
    store.pet = Some(pet);
    Ok(Response::default())
}

/// Hands the pet to a new owner. For the owner alone. `new_owner` is the
/// verdict of address validation; a refused address fails with
/// `InvalidAddress` and the validator's reason.
pub fn try_transfer(store: &mut PetStore, info: &MessageInfo, new_owner: Result<
    AccountId,
    String,
>) -> (done: Result<Response, PetError>)
    ensures
        settled(
            *old(store),
            *final(store),
            done,
            old(store).transferred(info.sender@, new_owner),
        ),
{
    match check_owner(store, &info.sender) {
        Err(error) => {
            return Err(error);
        },
        Ok(()) => {},
    }
    match new_owner {
        Err(reason) => Err(PetError::InvalidAddress(reason)),
        Ok(account) => {
            store.owner = Some(account);
            Ok(Response::default())
        },
    }
}

/// Whether the query `msg` can be answered at the block of `env`: whether
/// [`query`] is defined for it. A query that is turned down can always be
/// answered; one that is let through cannot where the block lies before
/// the pet's last action or a reported level would leave the range of a
/// byte.
pub fn check_query(store: &PetStore, env: &Env, msg: &QueryMsg) -> (possible: bool)
    ensures
        possible == store.can_answer(env.block.height, *msg),
{
    match msg {
        QueryMsg::IsHungry { password } => {
            match open_store(store, password.clone()) {
                Err(_) => true,
                Ok(pet) => pet.check_hunger_seen(env.block.height),
            }
        },
        QueryMsg::GetStatus { password } => {
            match open_store(store, password.clone()) {
                Err(_) => true,
                Ok(pet) => pet.check_status_seen(env.block.height),
            }
        },
    }
}

/// Answers the query `msg` at the block of `env`.
pub fn query(store: &PetStore, env: &Env, msg: QueryMsg) -> (answer: Result<QueryAnswer, PetError>)
    requires
        store.can_answer(env.block.height, msg),
    ensures
        answer == store.answer(env.block.height, msg),
{
    match msg {
        QueryMsg::IsHungry { password } => try_is_hungry(store, password, env),
        QueryMsg::GetStatus { password } => try_get_status(store, password, env),
    }
}

/// Passes for the stored password; fails with `PasswordNotFound` while
/// none is stored, else with `IncorrectPassword`.
pub fn check_password(store: &PetStore, password: String) -> (check: Result<(), PetError>)
    ensures
        match store.password_error(password@) {
            Some(error) => check == Err::<(), PetError>(error),
            None => check is Ok,
        },
{
    match &store.password {
        None => Err(PetError::PasswordNotFound),
        Some(stored) => {
            if *stored != password {
                Err(PetError::IncorrectPassword)
            } else {
                Ok(())
            }
        },
    }
}

/// Passes with the pet where `password` is the stored one and a pet is
/// stored; fails as [`check_password`], else with `PetNotFound`.
fn open_store(store: &PetStore, password: String) -> (pet: Result<&Pet, PetError>)
    ensures
        match store.query_error(password@) {
            Some(error) => pet == Err::<&Pet, PetError>(error),
            None => pet == Ok::<&Pet, PetError>(&store.pet->0),
        },
{
    match check_password(store, password) {
        Err(error) => {
            return Err(error);
        },
        Ok(()) => {},
    }
    match &store.pet {
        None => Err(PetError::PetNotFound),
        Some(pet) => Ok(pet),
    }
}

/// Tells whether the pet is hungry at the block of `env`: whether its
/// hunger, with one added for every ten blocks since the last action (the
/// steps cut down to a byte) and at most 10, is 7 or more. Needs the
/// password. Nothing changes; the drift is not stored.
pub fn try_is_hungry(store: &PetStore, password: String, env: &Env) -> (answer: Result<
    QueryAnswer,
    PetError,
>)
    requires
        store.can_tell_hunger(env.block.height, password@),
    ensures
        answer == store.hungry(env.block.height, password@),
{
    let pet = match open_store(store, password) {
        Ok(pet) => pet,
        Err(error) => {
            return Err(error);
        },
    };
    let hunger: u8 = pet.hunger_seen_at(env.block.height);
    Ok(QueryAnswer::IsHungry { is_hungry: hunger >= HUNGRY_FROM })
}

/// Tells the pet's name and levels at the block of `env`: the hunger with
/// one added for every ten blocks since the last action (the steps cut
/// down to a byte) and at most 10, the happiness with as much taken off,
/// and the energy as stored. Needs the password. Nothing changes; the
/// drift is not stored.
pub fn try_get_status(store: &PetStore, password: String, env: &Env) -> (answer: Result<
    QueryAnswer,
    PetError,
>)
    requires
        store.can_tell_status(env.block.height, password@),
    ensures
        answer == store.status(env.block.height, password@),
{
    let pet = match open_store(store, password) {
        Ok(pet) => pet,
        Err(error) => {
            return Err(error);
        },
    };
    Ok(
        QueryAnswer::GetStatus {
            name: pet.name.clone(),
            hunger_level: pet.hunger_seen_at(env.block.height),
            happiness_level: pet.happiness_seen_at(env.block.height),
            energy_level: pet.energy_level,
        },
    )
}

} // verus!
