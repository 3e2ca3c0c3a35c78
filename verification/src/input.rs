use vstd::prelude::*;
use crate::components::{Ability, PlayerActions, Position, PressedActions, Vec2Bits};
use crate::config::{duration_to_ticks, ticks_in};
use crate::tick::{wrapping_sum, Tick};

verus! {

/// How long a slash lasts, in milliseconds.
pub const SLASH_DURATION_MILLIS: u128 = 300;

/// The ability that a slash started at `now` by a player at `pos` creates:
/// it ends as many ticks later as the slash duration spans, at the player's
/// position, with no direction.
pub open spec fn slash_ability(pos: Position, now: Tick) -> Ability {
    Ability {
        start_tick: now,
        end_tick: Tick(wrapping_sum(now.0, ticks_in(SLASH_DURATION_MILLIS as nat) as u16)),
        position: pos.0,
        direction: Vec2Bits::spec_zero(),
    }
}

/// What one tick of player input does to a player.
#[derive(Clone, Copy, Debug, PartialEq, Eq, Structural)]
pub struct InputOutcome {
    /// The ability to attach to the player, if a slash starts.
    pub spawn_ability: Option<Ability>,
    /// Whether the player moves (and turns) along its movement input.
    pub move_player: bool,
}

/// The decisions of one tick of player input, shared by the server and by the
/// client's prediction. While an ability is in progress the player neither
/// moves nor starts another one. Otherwise a pressed slash starts an ability
/// at the player's position, and a pressed move makes the player move; both
/// can happen in the same tick.
pub fn shared_player_input(
    pos: &Position,
    ability: Option<&Ability>,
    current_tick: Tick,
    action: &PressedActions,
) -> (outcome: InputOutcome)
    ensures
        ability.is_some() ==> outcome == (InputOutcome { spawn_ability: None, move_player: false }),
        ability.is_none() ==> outcome.spawn_ability == (if action.slash_pressed {
            Some(slash_ability(*pos, current_tick))
        } else {
            None
        }),
        ability.is_none() ==> outcome.move_player == action.move_pressed,
        ability.is_none() && action.slash_pressed ==> outcome.spawn_ability.is_some()
            && outcome.spawn_ability.unwrap().position == pos.0
            && outcome.spawn_ability.unwrap().start_tick == current_tick
            && outcome.spawn_ability.unwrap().end_tick.0 as int == (current_tick.0 as int + 20)
            % 65536 && outcome.spawn_ability.unwrap().direction.x == 0
            && outcome.spawn_ability.unwrap().direction.y == 0,
{
    if ability.is_some() {
        return InputOutcome { spawn_ability: None, move_player: false };
    }
    let mut spawn_ability: Option<Ability> = None;
    if action.pressed(PlayerActions::Slash) {
        let duration = duration_to_ticks(SLASH_DURATION_MILLIS);
        spawn_ability = Some(
            Ability {
                position: pos.0,
                direction: Vec2Bits::zero(),
                start_tick: current_tick,
                end_tick: current_tick.add_ticks(duration),
            },
        );
    }
    let move_player = action.pressed(PlayerActions::Move);
    InputOutcome { spawn_ability, move_player }
}

/// The ability of a slash, field by field: it starts at the tick of the
/// slash, ends 20 ticks (300 ms) later on the wrapping tick counter, stands
/// exactly at the player's position (both components, unswapped) and is aimed
/// along the zero vector.
pub proof fn lemma_slash_ability_fields(pos: Position, now: Tick)
    ensures
        slash_ability(pos, now).start_tick == now,
        slash_ability(pos, now).end_tick.0 as int == (now.0 as int + 20) % 65536,
        slash_ability(pos, now).position.x == pos.0.x,
        slash_ability(pos, now).position.y == pos.0.y,
        slash_ability(pos, now).direction.x == 0,
        slash_ability(pos, now).direction.y == 0,
{
    assert(ticks_in(SLASH_DURATION_MILLIS as nat) == 20);
}

/// Whether `ability` ends at tick `now`.
pub open spec fn ends_at(ability: Ability, now: Tick) -> bool {
    ability.end_tick == now
}

/// The entities, in order, whose ability ends at tick `now`.
pub open spec fn expired_entities(abilities: Seq<(u64, Ability)>, now: Tick) -> Seq<u64>
    decreases abilities.len(),
{
    if abilities.len() == 0 {
        Seq::empty()
    } else {
        let rest = expired_entities(abilities.drop_last(), now);
        if ends_at(abilities.last().1, now) {
            rest.push(abilities.last().0)
        } else {
            rest
        }
    }
}

/// The entities whose ability is over at tick `now`, so that the ability is
/// removed from them: those whose ability ends exactly at `now`, in the order
/// given.
pub fn update_abilities(abilities: &Vec<(u64, Ability)>, now: Tick) -> (expired: Vec<u64>)
    ensures
        expired@ == expired_entities(abilities@, now),
{
    let mut expired: Vec<u64> = Vec::new();
    let mut i: usize = 0;
    while i < abilities.len()
        invariant
            i <= abilities.len(),
            expired@ == expired_entities(abilities@.take(i as int), now),
        decreases abilities.len() - i,
    {
        let (entity, ability) = abilities[i];
        assert(abilities@.take(i + 1).drop_last() =~= abilities@.take(i as int));
        if ability.end_tick == now {
            expired.push(entity);
        }
        i = i + 1;
    }
    assert(abilities@.take(abilities.len() as int) =~= abilities@);
    expired
}

/// An entity is among the expired ones exactly when one of its abilities in
/// the list ends at `now`.
pub proof fn lemma_expired_membership(abilities: Seq<(u64, Ability)>, now: Tick, entity: u64)
    ensures
        expired_entities(abilities, now).contains(entity) <==> exists|i: int|
            0 <= i < abilities.len() && abilities[i].0 == entity && ends_at(
                #[trigger] abilities[i].1,
                now,
            ),
    decreases abilities.len(),
{
    if abilities.len() > 0 {
        let init = abilities.drop_last();
        lemma_expired_membership(init, now, entity);
        let rest = expired_entities(init, now);
        if expired_entities(abilities, now).contains(entity) {
            if !rest.contains(entity) {
                let last = abilities.len() - 1;
                assert(abilities[last].0 == entity && ends_at(abilities[last].1, now));
            } else {
                let j = choose|j: int| 0 <= j < init.len() && init[j].0 == entity && ends_at(#[trigger] init[j].1, now);
                assert(abilities[j] == init[j]);
            }
        } else {
            if rest.contains(entity) {
                let j = choose|j: int| 0 <= j < rest.len() && rest[j] == entity;
                assert(expired_entities(abilities, now)[j] == entity);
            }
            assert forall|i: int| 0 <= i < abilities.len() && abilities[i].0 == entity
                implies !ends_at(#[trigger] abilities[i].1, now) by {
                if i < init.len() {
                    assert(abilities[i] == init[i]);
                } else {
                    if ends_at(abilities[i].1, now) {
                        assert(expired_entities(abilities, now) == rest.push(entity));
                        assert(expired_entities(abilities, now).last() == entity);
                    }
                }
            }
        }
    }
}

/// A slash ability lasts exactly its duration: started at tick `t`, it ends
/// `k` ticks later (for `k` less than a full turn of the tick counter) exactly
/// when `k` is the number of ticks the slash duration spans.
pub proof fn lemma_slash_lifetime(pos: Position, t: Tick, k: u16)
    ensures
        ends_at(slash_ability(pos, t), Tick(wrapping_sum(t.0, k))) <==> k == ticks_in(
            SLASH_DURATION_MILLIS as nat,
        ),
{
    assert(ticks_in(SLASH_DURATION_MILLIS as nat) == 20);
}

} // verus!
