use vstd::prelude::*;

use crate::error::ContractError;
use crate::msg::{ExecuteMsg, InstantiateMsg, QueryAnswer, QueryMsg};
use crate::state::{Pet, State, MAX_LEVEL, START_LEVEL};

verus! {

/// Blocks per unit of decay.
pub const BLOCKS_PER_STEP: u64 = 10;

/// Most decay steps that one projection applies. Levels lie in
/// `[0, MAX_LEVEL]`, so more steps would change nothing: the ceiling only keeps
/// the arithmetic small, and the mutating and reading paths share it.
pub const MAX_STEPS: u64 = 10;

/// Hunger at or above this level counts as hungry.
pub const HUNGRY_LEVEL: u8 = 7;

/// Decay steps between the last action and `height`; none where `height` lies
/// at or before the last action.
pub open spec fn blocks_passed(last: u64, height: u64) -> nat {
    if height <= last {
        0
    } else {
        let steps = ((height - last) / (BLOCKS_PER_STEP as int)) as nat;
        if steps > MAX_STEPS { MAX_STEPS as nat } else { steps }
    }
}

/// `level + by`, held at `MAX_LEVEL`.
pub open spec fn raise(level: u8, by: nat) -> u8 {
    if level + by >= MAX_LEVEL { MAX_LEVEL } else { (level + by) as u8 }
}

/// `level - by`, held at zero.
pub open spec fn lower(level: u8, by: nat) -> u8 {
    if level >= by { (level - by) as u8 } else { 0 }
}

/// The pet as the mutating path sees it at `height`: hunger rises and
/// happiness falls by one per step, energy is only held at `MAX_LEVEL`, and the
/// last action moves to `height`.
pub open spec fn decay(p: Pet, height: u64) -> Pet {
    let steps = blocks_passed(p.last_action_block, height);
    Pet {
        name: p.name,
        hunger_level: raise(p.hunger_level, steps),
        happiness_level: lower(p.happiness_level, steps),
        energy_level: raise(p.energy_level, 0),
        last_action_block: height,
    }
}

/// Hunger as a read at `height` sees it; nothing is stored.
pub open spec fn projected_hunger(p: Pet, height: u64) -> u8 {
    raise(p.hunger_level, blocks_passed(p.last_action_block, height))
}

/// Happiness as a read at `height` sees it; nothing is stored.
pub open spec fn projected_happiness(p: Pet, height: u64) -> u8 {
    lower(p.happiness_level, blocks_passed(p.last_action_block, height))
}

/// The password check passes: one is set and `supplied` equals it.
pub open spec fn password_matches(stored: Option<String>, supplied: Seq<char>) -> bool {
    match stored {
        Some(p) => p@ == supplied,
        None => false,
    }
}

/// The state after a successful feed: hunger falls by `amount` after decay.
pub open spec fn fed(p: Pet, height: u64, amount: u8) -> Pet {
    let d = decay(p, height);
    Pet { hunger_level: lower(d.hunger_level, amount as nat), ..d }
}

/// The state after a successful play: happiness rises by `amount` and energy
/// falls by one after decay.
pub open spec fn played(p: Pet, height: u64, amount: u8) -> Pet {
    let d = decay(p, height);
    Pet {
        happiness_level: raise(d.happiness_level, amount as nat),
        energy_level: (d.energy_level - 1) as u8,
        ..d
    }
}

/// The state after a successful rest: energy rises by `amount` after decay.
pub open spec fn rested(p: Pet, height: u64, amount: u8) -> Pet {
    let d = decay(p, height);
    Pet { energy_level: raise(d.energy_level, amount as nat), ..d }
}

/// Outcome of an owner-gated change of the pet by an amount: refused for a
/// caller other than the owner, then for an amount out of range, then (for
/// play only) for a pet with no energy after decay; otherwise the pet becomes
/// `changed`.
pub open spec fn pet_action_outcome(
    s: State,
    sender: Seq<char>,
    amount: u8,
    tired: bool,
    changed: Pet,
) -> (State, Result<(), ContractError>) {
    if s.owner@ != sender {
        (s, Err(ContractError::Unauthorized))
    } else if amount > MAX_LEVEL {
        (s, Err(ContractError::AmountOutOfRange))
    } else if tired {
        (s, Err(ContractError::TooTired))
    } else {
        (State { pet: changed, ..s }, Ok(()))
    }
}

/// Outcome of feeding.
pub open spec fn feed_outcome(s: State, height: u64, sender: Seq<char>, amount: u8) -> (
    State,
    Result<(), ContractError>,
) {
    pet_action_outcome(s, sender, amount, false, fed(s.pet, height, amount))
}

/// The pet has no energy left once decay to `height` is applied.
pub open spec fn too_tired(p: Pet, height: u64) -> bool {
    decay(p, height).energy_level < 1
}

/// Outcome of playing.
pub open spec fn play_outcome(s: State, height: u64, sender: Seq<char>, amount: u8) -> (
    State,
    Result<(), ContractError>,
) {
    pet_action_outcome(s, sender, amount, too_tired(s.pet, height), played(s.pet, height, amount))
}

/// Outcome of resting.
pub open spec fn rest_outcome(s: State, height: u64, sender: Seq<char>, amount: u8) -> (
    State,
    Result<(), ContractError>,
) {
    pet_action_outcome(s, sender, amount, false, rested(s.pet, height, amount))
}

/// Outcome of setting the password: stored as given, for the owner only.
pub open spec fn set_password_outcome(s: State, sender: Seq<char>, password: String) -> (
    State,
    Result<(), ContractError>,
) {
    if s.owner@ != sender {
        (s, Err(ContractError::Unauthorized))
    } else {
        (State { password: Some(password), ..s }, Ok(()))
    }
}

/// Outcome of a transfer to the address the host validated, `None` where it
/// refused it.
pub open spec fn transfer_outcome(s: State, sender: Seq<char>, new_owner: Option<String>) -> (
    State,
    Result<(), ContractError>,
) {
    if s.owner@ != sender {
        (s, Err(ContractError::Unauthorized))
    } else {
        match new_owner {
            Some(o) => (State { owner: o, ..s }, Ok(())),
            None => (s, Err(ContractError::InvalidIdentity)),
        }
    }
}

/// Outcome of any command.
pub open spec fn execute_outcome(s: State, height: u64, sender: Seq<char>, msg: ExecuteMsg) -> (
    State,
    Result<(), ContractError>,
) {
    match msg {
        ExecuteMsg::SetPassword { password } => set_password_outcome(s, sender, password),
        ExecuteMsg::Feed { amount } => feed_outcome(s, height, sender, amount),
        ExecuteMsg::Play { amount } => play_outcome(s, height, sender, amount),
        ExecuteMsg::Rest { amount } => rest_outcome(s, height, sender, amount),
        ExecuteMsg::Transfer { new_owner } => transfer_outcome(s, sender, new_owner),
    }
}

/// Answer to a read at `height`: refused without the right password; the
/// projection of decay is not stored.
pub open spec fn query_outcome(s: State, height: u64, msg: QueryMsg) -> Result<
    QueryAnswer,
    ContractError,
> {
    match msg {
        QueryMsg::IsHungry { password } => if password_matches(s.password, password@) {
            Ok(QueryAnswer::IsHungry { is_hungry: projected_hunger(s.pet, height) >= HUNGRY_LEVEL })
        } else {
            Err(ContractError::WrongPassword)
        },
        QueryMsg::GetStatus { password } => if password_matches(s.password, password@) {
            Ok(
                QueryAnswer::GetStatus {
                    pet_name: s.pet.name,
                    hunger_level: projected_hunger(s.pet, height),
                    happiness_level: projected_happiness(s.pet, height),
                    energy_level: s.pet.energy_level,
                },
            )
        } else {
            Err(ContractError::WrongPassword)
        },
    }
}

/// Decay steps between `last` and `height`.
fn elapsed_steps(last: u64, height: u64) -> (r: u8)
    ensures
        r as nat == blocks_passed(last, height),
{
    if height <= last {
        0
    } else {
        let steps: u64 = (height - last) / BLOCKS_PER_STEP;
        if steps > MAX_STEPS {
            MAX_STEPS as u8
        } else {
            steps as u8
        }
    }
}

/// `level + by`, held at `MAX_LEVEL`.
fn raise_level(level: u8, by: u8) -> (r: u8)
    ensures
        r == raise(level, by as nat),
{
    let sum: u16 = level as u16 + by as u16;
    if sum >= MAX_LEVEL as u16 {
        MAX_LEVEL
    } else {
        sum as u8
    }
}

/// `level - by`, held at zero.
fn lower_level(level: u8, by: u8) -> (r: u8)
    ensures
        r == lower(level, by as nat),
{
    if level >= by {
        level - by
    } else {
        0
    }
}

/// The pet with the decay since its last action applied, moved to `height`.
pub fn update_state(pet: &Pet, height: u64) -> (r: Pet)
    ensures
        r == decay(*pet, height),
{
    let steps = elapsed_steps(pet.last_action_block, height);
    Pet {
        name: pet.name.clone(),
        hunger_level: raise_level(pet.hunger_level, steps),
        happiness_level: lower_level(pet.happiness_level, steps),
        energy_level: raise_level(pet.energy_level, 0),
        last_action_block: height,
    }
}

/// Passes iff `sender` is the stored owner.
pub fn check_owner(owner: &String, sender: &String) -> (r: Result<(), ContractError>)
    ensures
        r == (if owner@ == sender@ { Ok(()) } else { Err(ContractError::Unauthorized) }),
{
    if *owner == *sender {
        Ok(())
    } else {
        Err(ContractError::Unauthorized)
    }
}

/// Passes iff a password is set and `password` equals it.
pub fn check_password(stored: &Option<String>, password: &String) -> (r: Result<
    (),
    ContractError,
>)
    ensures
        r == (if password_matches(*stored, password@) {
            Ok(())
        } else {
            Err(ContractError::WrongPassword)
        }),
{
    match stored {
        Some(p) => {
            if *p == *password {
                Ok(())
            } else {
                Err(ContractError::WrongPassword)
            }
        },
        None => Err(ContractError::WrongPassword),
    }
}

/// Passes iff `amount` lies in `[0, MAX_LEVEL]`.
pub fn check_amount(amount: u8) -> (r: Result<(), ContractError>)
    ensures
        r == (if amount <= MAX_LEVEL { Ok(()) } else { Err(ContractError::AmountOutOfRange) }),
{
    if amount <= MAX_LEVEL {
        Ok(())
    } else {
        Err(ContractError::AmountOutOfRange)
    }
}


/// Feeds the pet for its owner: after decay, hunger falls by `amount`.
pub fn try_feed(state: &mut State, height: u64, sender: &String, amount: u8) -> (r: Result<
    (),
    ContractError,
>)
    requires
        old(state).inv(),
    ensures
        (*final(state), r) == feed_outcome(*old(state), height, sender@, amount),
        final(state).inv(),
{
    check_owner(&state.owner, sender)?;
    check_amount(amount)?;
    let mut pet = update_state(&state.pet, height);
    pet.hunger_level = lower_level(pet.hunger_level, amount);
    state.pet = pet;
    Ok(())
}

/// Plays with the pet for its owner: after decay, happiness rises by
/// `amount` and energy falls by one. A pet with no energy after decay refuses,
/// and nothing is stored, not even the decay.
pub fn try_play(state: &mut State, height: u64, sender: &String, amount: u8) -> (r: Result<
    (),
    ContractError,
>)
    requires
        old(state).inv(),
    ensures
        (*final(state), r) == play_outcome(*old(state), height, sender@, amount),
        final(state).inv(),
        old(state).owner@ == sender@ && amount <= MAX_LEVEL ==> (r is Ok <==> !too_tired(
            old(state).pet,
            height,
        )),
        r == Err::<(), ContractError>(ContractError::TooTired) ==> *final(state) == *old(state),
{
    check_owner(&state.owner, sender)?;
    check_amount(amount)?;
    let mut pet = update_state(&state.pet, height);
    if pet.energy_level < 1 {
        return Err(ContractError::TooTired);
    }
    pet.happiness_level = raise_level(pet.happiness_level, amount);
    pet.energy_level = pet.energy_level - 1;
    state.pet = pet;
    Ok(())
}

/// Lets the pet rest for its owner: after decay, energy rises by `amount`.
pub fn try_rest(state: &mut State, height: u64, sender: &String, amount: u8) -> (r: Result<
    (),
    ContractError,
>)
    requires
        old(state).inv(),
    ensures
        (*final(state), r) == rest_outcome(*old(state), height, sender@, amount),
        final(state).inv(),
{
    check_owner(&state.owner, sender)?;
    check_amount(amount)?;
    let mut pet = update_state(&state.pet, height);
    pet.energy_level = raise_level(pet.energy_level, amount);
    state.pet = pet;
    Ok(())
}

/// Stores a new password, verbatim, for the owner. No decay is applied.
pub fn try_set_password(state: &mut State, sender: &String, password: String) -> (r: Result<
    (),
    ContractError,
>)
    requires
        old(state).inv(),
    ensures
        (*final(state), r) == set_password_outcome(*old(state), sender@, password),
        final(state).inv(),
{
    check_owner(&state.owner, sender)?;
    state.password = Some(password);
    Ok(())
}

/// Hands the pet to `new_owner`, the address as the host validated it
/// (`None` where the host refused it), for the current owner only. No decay
/// is applied.
pub fn try_transfer(state: &mut State, sender: &String, new_owner: Option<String>) -> (r: Result<
    (),
    ContractError,
>)
    requires
        old(state).inv(),
    ensures
        (*final(state), r) == transfer_outcome(*old(state), sender@, new_owner),
        final(state).inv(),
{
    check_owner(&state.owner, sender)?;
    match new_owner {
        Some(owner) => {
            state.owner = owner;
            Ok(())
        },
        None => Err(ContractError::InvalidIdentity),
    }
}


/// Whether the pet is hungry at `height`, for a caller with the password.
/// Decay is projected, not stored.
pub fn try_is_hungry(state: &State, password: &String, height: u64) -> (r: Result<
    QueryAnswer,
    ContractError,
>)
    ensures
        r == query_outcome(*state, height, QueryMsg::IsHungry { password: *password }),
{
    check_password(&state.password, password)?;
    let steps = elapsed_steps(state.pet.last_action_block, height);
    let hunger = raise_level(state.pet.hunger_level, steps);
    Ok(QueryAnswer::IsHungry { is_hungry: hunger >= HUNGRY_LEVEL })
}

/// The pet's name and levels at `height`, for a caller with the password.
/// Decay is projected onto hunger and happiness, not stored.
pub fn try_get_status(state: &State, password: &String, height: u64) -> (r: Result<
    QueryAnswer,
    ContractError,
>)
    ensures
        r == query_outcome(*state, height, QueryMsg::GetStatus { password: *password }),
{
    check_password(&state.password, password)?;
    let steps = elapsed_steps(state.pet.last_action_block, height);
    Ok(
        QueryAnswer::GetStatus {
            pet_name: state.pet.name.clone(),
            hunger_level: raise_level(state.pet.hunger_level, steps),
            happiness_level: lower_level(state.pet.happiness_level, steps),
            energy_level: state.pet.energy_level,
        },
    )
}

/// Creates the records of a new instance at `height`: the pet with every
/// level at `START_LEVEL`, owned by `msg.pet_owner` or else by `sender`, and
/// no password. An empty name is refused.
pub fn instantiate(height: u64, sender: String, msg: InstantiateMsg) -> (r: Result<
    State,
    ContractError,
>)
    ensures
        r is Err <==> msg.pet_name@.len() == 0,
        r is Err ==> r == Err::<State, ContractError>(ContractError::EmptyName),
        r matches Ok(s) ==> {
            &&& s.inv()
            &&& s.pet == (Pet {
                name: msg.pet_name,
                hunger_level: START_LEVEL,
                happiness_level: START_LEVEL,
                energy_level: START_LEVEL,
                last_action_block: height,
            })
            &&& s.owner == (match msg.pet_owner {
                Some(o) => o,
                None => sender,
            })
            &&& s.password is None
        },
{
    if msg.pet_name.as_str().is_empty() {
        return Err(ContractError::EmptyName);
    }
    let owner = match msg.pet_owner {
        Some(o) => o,
        None => sender,
    };
    let pet = Pet {
        name: msg.pet_name,
        hunger_level: START_LEVEL,
        happiness_level: START_LEVEL,
        energy_level: START_LEVEL,
        last_action_block: height,
    };
    Ok(State { pet, owner, password: None })
}

/// Runs a command from `sender` at `height`. A refused command stores
/// nothing; after any command every level lies in `[0, MAX_LEVEL]`; a caller
/// other than the owner is always refused, and an amount out of range is
/// refused for the owner.
pub fn execute(state: &mut State, height: u64, sender: &String, msg: ExecuteMsg) -> (r: Result<
    (),
    ContractError,
>)
    requires
        old(state).inv(),
    ensures
        (*final(state), r) == execute_outcome(*old(state), height, sender@, msg),
        final(state).inv(),
        r is Err ==> *final(state) == *old(state),
        old(state).owner@ != sender@ ==> r == Err::<(), ContractError>(ContractError::Unauthorized),
        old(state).owner@ == sender@ ==> match msg {
            ExecuteMsg::Feed { amount } | ExecuteMsg::Play { amount } | ExecuteMsg::Rest {
                amount,
            } => amount > MAX_LEVEL ==> r == Err::<(), ContractError>(
                ContractError::AmountOutOfRange,
            ),
            _ => true,
        },
{
    match msg {
        ExecuteMsg::SetPassword { password } => try_set_password(state, sender, password),
        ExecuteMsg::Feed { amount } => try_feed(state, height, sender, amount),
        ExecuteMsg::Play { amount } => try_play(state, height, sender, amount),
        ExecuteMsg::Rest { amount } => try_rest(state, height, sender, amount),
        ExecuteMsg::Transfer { new_owner } => try_transfer(state, sender, new_owner),
    }
}

/// Answers a read at `height`. Nothing is stored.
pub fn query(state: &State, height: u64, msg: QueryMsg) -> (r: Result<QueryAnswer, ContractError>)
    ensures
        r == query_outcome(*state, height, msg),
        r == Err::<QueryAnswer, ContractError>(ContractError::WrongPassword) <==> !password_matches(
            state.password,
            match msg {
                QueryMsg::IsHungry { password } | QueryMsg::GetStatus { password } => password@,
            },
        ),
{
    match msg {
        QueryMsg::IsHungry { password } => try_is_hungry(state, &password, height),
        QueryMsg::GetStatus { password } => try_get_status(state, &password, height),
    }
}


/// Reads are idempotent: two reads of the same records at the same height
/// with the same message answer alike. A read takes the records by shared
/// reference, so nothing between the two, `last_action_block` included, moves.
pub proof fn lemma_read_twice(
    s: State,
    height: u64,
    msg: QueryMsg,
    first: Result<QueryAnswer, ContractError>,
    second: Result<QueryAnswer, ContractError>,
)
    requires
        first == query_outcome(s, height, msg),
        second == query_outcome(s, height, msg),
    ensures
        first == second,
{
}

/// For a level in range, holding the elapsed steps at `MAX_STEPS` changes no
/// result: reads and changes that share the ceiling agree with decay counted
/// without one.
pub proof fn lemma_step_ceiling_changes_nothing(level: u8, steps: nat)
    requires
        level <= MAX_LEVEL,
    ensures
        raise(level, steps) == raise(level, if steps > MAX_STEPS { MAX_STEPS as nat } else { steps }),
        lower(level, steps) == lower(level, if steps > MAX_STEPS { MAX_STEPS as nat } else { steps }),
{
}

/// Every change keeps the levels in `[0, MAX_LEVEL]` and the name non-empty,
/// whether it succeeds or not.
pub proof fn lemma_execute_keeps_levels_in_range(
    s: State,
    height: u64,
    sender: Seq<char>,
    msg: ExecuteMsg,
)
    requires
        s.inv(),
    ensures
        execute_outcome(s, height, sender, msg).0.inv(),
{
}

} // verus!
