//! The discrete rules of the pet's life: what it is doing, its name, the
//! mess it makes and the money it earns and spends. The pet's gauges
//! (hunger, happiness, sleepiness, energy, weight, age) are real numbers
//! and are kept by the game itself.
use vstd::prelude::*;

verus! {

/// What the pet is busy with when it is awake and left alone.
#[derive(Clone, Copy, Debug, PartialEq, Eq, Structural)]
pub enum Activity {
    Idle,
    Cleaning,
    Stretching,
}

impl Default for Activity {
    fn default() -> (a: Activity)
        ensures
            a == Activity::Idle,
    {
        Activity::Idle
    }
}

/// The name a new pet is given.
pub fn default_name() -> (name: String)
    ensures
        name@ == "Kitty"@,
{
    String::from_str("Kitty")
}

/// The most droppings that can pile up.
pub const MAX_POOPS: u32 = 50;

/// The seconds between two droppings while the pet is awake.
pub const POOP_INTERVAL_SECS: u32 = 120;

/// What a treat from the shop costs.
pub const TREAT_PRICE: u32 = 5;

/// What one round of play earns.
pub const PLAY_REWARD: u32 = 1;

/// The droppings after the pet drops one more: one more, up to `MAX_POOPS`.
pub open spec fn poops_after_dropping(count: nat) -> nat {
    if count + 1 <= MAX_POOPS {
        count + 1
    } else {
        MAX_POOPS as nat
    }
}

/// The droppings after the player cleans one up, or `None` when there is
/// none to clean.
pub open spec fn poops_after_cleaning(count: nat) -> Option<nat> {
    if count > 0 {
        Some((count - 1) as nat)
    } else {
        None
    }
}

/// The money after a round of play.
pub open spec fn money_after_play(money: nat) -> nat {
    money + PLAY_REWARD as nat
}

/// The money left after buying a treat, or `None` when the pet's owner
/// cannot afford one.
pub open spec fn money_after_treat(money: nat) -> Option<nat> {
    if money >= TREAT_PRICE {
        Some((money - TREAT_PRICE) as nat)
    } else {
        None
    }
}

/// The pet drops one more dropping; the pile never grows past `MAX_POOPS`.
pub fn add_poop(count: u32) -> (new_count: u32)
    requires
        count < u32::MAX,
    ensures
        new_count == poops_after_dropping(count as nat),
        count < MAX_POOPS ==> new_count == count + 1,
        count >= MAX_POOPS ==> new_count == MAX_POOPS,
{
    let more: u32 = count + 1;
    if more <= MAX_POOPS {
        more
    } else {
        MAX_POOPS
    }
}

/// The player cleans up one dropping: the pile less one, or `None` when
/// the floor is already clean.
pub fn clean_poop(count: u32) -> (new_count: Option<u32>)
    ensures
        new_count matches Some(c) ==> poops_after_cleaning(count as nat) == Some(c as nat),
        new_count is None <==> poops_after_cleaning(count as nat) is None,
        count > 0 ==> new_count == Some((count - 1) as u32),
        count == 0 ==> new_count is None,
{
    if count > 0 {
        Some(count - 1)
    } else {
        None
    }
}

/// The money after a round of play has been paid for.
pub fn earn_play_reward(money: u32) -> (new_money: u32)
    requires
        money + PLAY_REWARD <= u32::MAX,
    ensures
        new_money == money_after_play(money as nat),
        new_money == money + PLAY_REWARD,
{
    money + PLAY_REWARD
}

/// Pays for a treat: the money left, or `None` (and nothing paid) when
/// there is less than `TREAT_PRICE`.
pub fn buy_treat(money: u32) -> (left: Option<u32>)
    ensures
        left matches Some(m) ==> money_after_treat(money as nat) == Some(m as nat),
        left is None <==> money_after_treat(money as nat) is None,
        money >= TREAT_PRICE ==> left == Some((money - TREAT_PRICE) as u32),
        money < TREAT_PRICE ==> left is None,
{
    if money >= TREAT_PRICE {
        Some(money - TREAT_PRICE)
    } else {
        None
    }
}

/// Cleaning up a dropping undoes the last one the pet dropped, as long as
/// the pile had not reached `MAX_POOPS`.
pub proof fn cleaning_undoes_dropping(count: nat)
    requires
        count < MAX_POOPS,
    ensures
        poops_after_cleaning(poops_after_dropping(count)) == Some(count),
{
}

/// However often the pet drops, a pile of at most `MAX_POOPS` stays at
/// most `MAX_POOPS`, and a full pile stays full.
pub proof fn dropping_keeps_pile_bounded(count: nat)
    requires
        count <= MAX_POOPS,
    ensures
        poops_after_dropping(count) <= MAX_POOPS,
        count == MAX_POOPS ==> poops_after_dropping(count) == MAX_POOPS,
{
}

/// A treat costs exactly as many rounds of play: after that many rounds,
/// buying a treat leaves the money where it started.
pub proof fn plays_pay_for_a_treat(money: nat)
    ensures
        money_after_treat(
            money_after_play(
                money_after_play(money_after_play(money_after_play(money_after_play(money)))),
            ),
        ) == Some(money),
{
}

/// Buying a treat never makes the money grow, and succeeds exactly when
/// there is at least `TREAT_PRICE`.
pub proof fn treat_needs_its_price(money: nat)
    ensures
        money_after_treat(money) is Some <==> money >= TREAT_PRICE,
        money_after_treat(money) matches Some(left) ==> left + TREAT_PRICE == money,
{
}

/// Below the cap a dropping adds exactly one to the pile, and at the cap
/// the pile stays full; cleaning a pile that is not empty removes exactly
/// one, and there is nothing to clean on a clean floor.
pub proof fn droppings_change_by_one(count: nat)
    ensures
        count < MAX_POOPS ==> poops_after_dropping(count) == count + 1,
        count >= MAX_POOPS ==> poops_after_dropping(count) == MAX_POOPS,
        count > 0 ==> poops_after_cleaning(count) == Some((count - 1) as nat),
        count == 0 ==> poops_after_cleaning(count) is None,
{
}

/// A round of play adds exactly the reward, one coin, to the money: it
/// never lowers it, and two rounds earn two coins.
pub proof fn play_adds_one_coin(money: nat)
    ensures
        money_after_play(money) == money + 1,
        money_after_play(money) > money,
        money_after_play(money_after_play(money)) == money + 2,
{
}

/// `macroquad::rand::gen_range` on `i32`: a pseudo-random number from
/// `low` up to but not including `high`. Which one depends on the
/// generator's hidden state, so only its range is stated; the range holds
/// for the small non-negative bounds admitted here, where the crate's
/// floating-point scaling of a random `u32` cannot round up to `high`.
#[verifier::external_body]
fn gen_range_i32(low: i32, high: i32) -> (r: i32)
    requires
        0 <= low < high <= 65536,
    ensures
        low <= r < high,
{
    macroquad::rand::gen_range(low, high)
}

/// The activity an idle pet takes up for a roll of a two-sided die, and
/// the seconds it keeps at it: cleaning itself for 4 s on a 0, stretching
/// for 2 s otherwise.
pub open spec fn activity_for(roll: int) -> (Activity, u32) {
    if roll == 0 {
        (Activity::Cleaning, 4u32)
    } else {
        (Activity::Stretching, 2u32)
    }
}

/// The activity for `roll`, and how many seconds it lasts.
pub fn activity_for_roll(roll: i32) -> (choice: (Activity, u32))
    ensures
        choice == activity_for(roll as int),
        roll == 0 ==> choice == (Activity::Cleaning, 4u32),
        roll != 0 ==> choice == (Activity::Stretching, 2u32),
{
    if roll == 0 {
        (Activity::Cleaning, 4)
    } else {
        (Activity::Stretching, 2)
    }
}

/// An idle pet takes up an activity at random: it cleans itself for 4 s
/// or stretches for 2 s.
pub fn start_random_activity() -> (choice: (Activity, u32))
    ensures
        choice == (Activity::Cleaning, 4u32) || choice == (Activity::Stretching, 2u32),
        choice.1 > 0,
{
    let roll: i32 = gen_range_i32(0, 2);
    activity_for_roll(roll)
}

/// An idle pet that rolls a 0 cleans itself for 4 seconds; on any other
/// roll it stretches for 2 seconds.
pub proof fn activity_follows_roll(roll: int)
    ensures
        roll == 0 ==> activity_for(roll) == (Activity::Cleaning, 4u32),
        roll != 0 ==> activity_for(roll) == (Activity::Stretching, 2u32),
{
}

/// The sound the pet makes when it is stroked.
#[derive(Clone, Copy, Debug, PartialEq, Eq, Structural)]
pub enum PetSound {
    Meow,
    Purr,
}

/// The sound for a roll of a three-sided die: a meow on a 0, a purr
/// otherwise.
pub open spec fn sound_for(roll: int) -> PetSound {
    if roll == 0 {
        PetSound::Meow
    } else {
        PetSound::Purr
    }
}

/// A stroked pet meows on a roll of 0 and purrs on any other roll.
pub proof fn sound_follows_roll(roll: int)
    ensures
        roll == 0 ==> sound_for(roll) == PetSound::Meow,
        roll != 0 ==> sound_for(roll) == PetSound::Purr,
{
}

/// The sound the pet makes for `roll`.
pub fn sound_for_roll(roll: i32) -> (sound: PetSound)
    ensures
        sound == sound_for(roll as int),
        roll == 0 ==> sound == PetSound::Meow,
        roll != 0 ==> sound == PetSound::Purr,
{
    if roll == 0 {
        PetSound::Meow
    } else {
        PetSound::Purr
    }
}

/// The pet answers a stroke at random: one time in three with a meow,
/// otherwise with a purr.
pub fn choose_pet_sound() -> (sound: PetSound)
    ensures
        exists|roll: int| 0 <= roll < 3 && sound == sound_for(roll),
{
    let roll: i32 = gen_range_i32(0, 3);
    sound_for_roll(roll)
}

} // verus!
