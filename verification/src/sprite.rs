use vstd::prelude::*;
use crate::config::{millis_of, ticks_to_duration};
use crate::components::{Ability, FacingDirection, PlayerActions, PressedActions};
use crate::direction::{direction_of, vec2_to_direction, Direction};
use crate::tick::{lemma_distance_after_advance, wrapping_distance, wrapping_sum, Tick};

verus! {

/// The name of the animation a player sprite plays: a slash animation while an
/// ability is in progress, a walking animation while the player moves, and a
/// standing one otherwise, each facing `dir`.
pub open spec fn animation_name_of(dir: Direction, slashing: bool, moving: bool) -> Seq<char> {
    if slashing {
        match dir {
            Direction::Down => "down_slash"@,
            Direction::Up => "up_slash"@,
            Direction::Left => "left_slash"@,
            Direction::Right => "right_slash"@,
        }
    } else if moving {
        match dir {
            Direction::Down => "down"@,
            Direction::Up => "up"@,
            Direction::Left => "left"@,
            Direction::Right => "right"@,
        }
    } else {
        match dir {
            Direction::Down => "down_stand"@,
            Direction::Up => "up_stand"@,
            Direction::Left => "left_stand"@,
            Direction::Right => "right_stand"@,
        }
    }
}

/// How the animation names relate: while an ability is in progress the
/// slash animation of the facing direction plays, whatever the move input; the
/// slash and standing animations are the walking animation of the same
/// direction with `_slash` and `_stand` appended; and the four directions have
/// four different walking animations.
pub proof fn lemma_animation_names(d: Direction, moving: bool)
    ensures
        animation_name_of(d, true, moving) == animation_name_of(d, true, !moving),
        animation_name_of(d, true, moving) == animation_name_of(d, false, true) + "_slash"@,
        animation_name_of(d, false, false) == animation_name_of(d, false, true) + "_stand"@,
        forall|e: Direction| e != d ==> #[trigger] animation_name_of(e, false, true)
            != animation_name_of(d, false, true),
{
    reveal_strlit("down");
    reveal_strlit("up");
    reveal_strlit("left");
    reveal_strlit("right");
    reveal_strlit("down_slash");
    reveal_strlit("up_slash");
    reveal_strlit("left_slash");
    reveal_strlit("right_slash");
    reveal_strlit("down_stand");
    reveal_strlit("up_stand");
    reveal_strlit("left_stand");
    reveal_strlit("right_stand");
    reveal_strlit("_slash");
    reveal_strlit("_stand");
    assert("down_slash"@ =~= "down"@ + "_slash"@);
    assert("up_slash"@ =~= "up"@ + "_slash"@);
    assert("left_slash"@ =~= "left"@ + "_slash"@);
    assert("right_slash"@ =~= "right"@ + "_slash"@);
    assert("down_stand"@ =~= "down"@ + "_stand"@);
    assert("up_stand"@ =~= "up"@ + "_stand"@);
    assert("left_stand"@ =~= "left"@ + "_stand"@);
    assert("right_stand"@ =~= "right"@ + "_stand"@);
    assert("down"@[0] != "left"@[0]);
    assert("down"@.len() != "up"@.len() && "down"@.len() != "right"@.len());
    assert("left"@.len() != "up"@.len() && "left"@.len() != "right"@.len());
    assert("up"@.len() != "right"@.len());
}

/// The name of the animation to play (see `animation_name_of`).
pub fn animation_name(dir: Direction, slashing: bool, moving: bool) -> (name: &'static str)
    ensures
        name@ == animation_name_of(dir, slashing, moving),
{
    if slashing {
        match dir {
            Direction::Down => "down_slash",
            Direction::Up => "up_slash",
            Direction::Left => "left_slash",
            Direction::Right => "right_slash",
        }
    } else if moving {
        match dir {
            Direction::Down => "down",
            Direction::Up => "up",
            Direction::Left => "left",
            Direction::Right => "right",
        }
    } else {
        match dir {
            Direction::Down => "down_stand",
            Direction::Up => "up_stand",
            Direction::Left => "left_stand",
            Direction::Right => "right_stand",
        }
    }
}

/// The animation a player sprite should play: it faces the player's facing
/// direction, slashes while an ability is in progress, and walks while the
/// move action is pressed.
pub fn wanted_animation(
    direction: &FacingDirection,
    ability: Option<&Ability>,
    input: &PressedActions,
) -> (name: &'static str)
    ensures
        name@ == animation_name_of(direction_of(direction.0), ability.is_some(), input.move_pressed),
{
    let dir = vec2_to_direction(direction.0);
    animation_name(dir, ability.is_some(), input.pressed(PlayerActions::Move))
}

/// What happens to a sprite's animator once the wanted animation is known.
#[derive(Clone, Copy, Debug, PartialEq, Eq, Structural)]
pub enum SpriteUpdate {
    /// The wanted animation already plays: leave it alone.
    Keep,
    /// Switch to the wanted animation; when an ability is in progress, seek to
    /// the given number of milliseconds into it, the time since the ability
    /// started.
    Switch { seek_millis: Option<u64> },
}

/// Whether the switch to a new animation is well defined: when an ability is
/// in progress, it must not have started after `now`.
pub open spec fn ability_started_by(ability_start: Option<Tick>, now: Tick) -> bool {
    match ability_start {
        Some(start) => wrapping_distance(now.0, start.0) >= 0,
        None => true,
    }
}

/// The switch to the wanted animation: it seeks to the milliseconds elapsed
/// since the ability in progress started, if there is one.
pub open spec fn switch_for(ability_start: Option<Tick>, now: Tick) -> SpriteUpdate {
    SpriteUpdate::Switch {
        seek_millis: match ability_start {
            Some(start) => Some(millis_of(wrapping_distance(now.0, start.0) as nat) as u64),
            None => None,
        },
    }
}

/// The animator update of a player sprite. `already_playing` says whether the
/// animator plays the wanted animation; `ability_start` is the start tick of
/// the ability in progress, if any. A switch while an ability is in progress
/// seeks to the time elapsed since the ability started, so the slash animation
/// stays in step with the ability.
pub fn sprite_update(already_playing: bool, ability_start: Option<Tick>, now: Tick) -> (u: SpriteUpdate)
    requires
        !already_playing ==> ability_started_by(ability_start, now),
    ensures
        already_playing ==> u == SpriteUpdate::Keep,
        !already_playing ==> u == switch_for(ability_start, now),
{
    if already_playing {
        return SpriteUpdate::Keep;
    }
    match ability_start {
        Some(start) => {
            let elapsed: i16 = now.ticks_since(start);
            let elapsed_ticks: u16 = elapsed as u16;
            SpriteUpdate::Switch { seek_millis: Some(ticks_to_duration(elapsed_ticks)) }
        },
        None => SpriteUpdate::Switch { seek_millis: None },
    }
}

/// A sprite that switches animation `k` ticks after an ability started seeks
/// to `k` ticks' worth of milliseconds into the animation, for every `k` in
/// the positive half of the tick circle.
pub proof fn lemma_switch_seeks_elapsed_time(start: Tick, k: u16)
    requires
        k <= 32767,
    ensures
        switch_for(Some(start), Tick(wrapping_sum(start.0, k))) == (SpriteUpdate::Switch {
            seek_millis: Some(millis_of(k as nat) as u64),
        }),
{
    lemma_distance_after_advance(start.0, k);
}

} // verus!
