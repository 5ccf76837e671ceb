//! Laws of the simulation: what holds of the rules over any run of ticks.

use crate::timer::CountdownView;
use crate::world::{
    lemma_survivors_push, survivors, BulletView, PlayerStatsView, PlayerView, WorldView,
    FULL_AMMUNITION,
};
use vstd::prelude::*;

verus! {

/// Sum of the tick lengths of a run.
pub open spec fn total(deltas: Seq<nat>) -> nat
    decreases deltas.len(),
{
    if deltas.len() == 0 {
        0
    } else {
        total(deltas.drop_last()) + deltas.last()
    }
}

/// The counters after a run of ticks through all of which the trigger is
/// held.
pub open spec fn after_held_trigger(stats: PlayerStatsView, deltas: Seq<nat>) -> PlayerStatsView
    decreases deltas.len(),
{
    if deltas.len() == 0 {
        stats
    } else {
        after_held_trigger(stats, deltas.drop_last()).after_trigger(deltas.last(), true)
    }
}

/// Number of shots fired in a run of ticks through all of which the trigger
/// is held.
pub open spec fn shots_fired(stats: PlayerStatsView, deltas: Seq<nat>) -> nat
    decreases deltas.len(),
{
    if deltas.len() == 0 {
        0
    } else {
        let shot: nat = if after_held_trigger(stats, deltas.drop_last()).fires(deltas.last(), true) {
            1
        } else {
            0
        };
        shots_fired(stats, deltas.drop_last()) + shot
    }
}

/// The bullet after a run of ticks, if nothing removes it.
pub open spec fn aged_through(bullet: BulletView, deltas: Seq<nat>) -> BulletView
    decreases deltas.len(),
{
    if deltas.len() == 0 {
        bullet
    } else {
        aged_through(bullet, deltas.drop_last()).aged(deltas.last())
    }
}

/// The bullets that are left after a run of ticks, each of which ages the
/// bullets and removes the expired ones.
pub open spec fn culled_through(bullets: Seq<BulletView>, deltas: Seq<nat>) -> Seq<BulletView>
    decreases deltas.len(),
{
    if deltas.len() == 0 {
        bullets
    } else {
        survivors(culled_through(bullets, deltas.drop_last()), deltas.last())
    }
}

/// Ammunition is spent one round at a time and only by a shot: a tick that
/// fires needs at least one round and takes exactly one, and a tick that does
/// not fire leaves the ammunition as it is.  The count therefore never drops
/// below zero.
pub proof fn law_ammunition_spent_by_shots_only(stats: PlayerStatsView, delta: nat, trigger: bool)
    ensures
        stats.fires(delta, trigger) ==> stats.ammunition >= 1 && stats.after_trigger(
            delta,
            trigger,
        ).ammunition == stats.ammunition - 1,
        !stats.fires(delta, trigger) ==> stats.after_trigger(delta, trigger).ammunition
            == stats.ammunition,
        stats.after_trigger(delta, trigger).score == stats.score,
{
}

/// A weapon without ammunition does not fire, whatever the trigger and the
/// cooldown are, and it stays without ammunition.
pub proof fn law_empty_weapon_never_fires(stats: PlayerStatsView, delta: nat, trigger: bool)
    requires
        stats.ammunition == 0,
    ensures
        !stats.fires(delta, trigger),
        stats.after_trigger(delta, trigger).ammunition == 0,
{
}

/// A weapon without ammunition fires no shot in any run of ticks.
pub proof fn law_empty_weapon_stays_silent(stats: PlayerStatsView, deltas: Seq<nat>)
    requires
        stats.ammunition == 0,
    ensures
        shots_fired(stats, deltas) == 0,
        after_held_trigger(stats, deltas).ammunition == 0,
    decreases deltas.len(),
{
    if deltas.len() > 0 {
        law_empty_weapon_stays_silent(stats, deltas.drop_last());
    }
}

/// Of two fire attempts, the second of which comes less than the cooldown
/// after the first, at most one fires; if the first fires, the second does
/// not, so exactly one batch of bullets is spawned.
pub proof fn law_cooldown_gates_second_attempt(stats: PlayerStatsView, first: nat, second: nat)
    requires
        second < stats.cooldown.duration,
    ensures
        stats.fires(first, true) ==> !stats.after_trigger(first, true).fires(second, true),
        shots_fired(stats, seq![first, second]) <= 1,
        stats.fires(first, true) ==> shots_fired(stats, seq![first, second]) == 1,
{
    let both = seq![first, second];
    let one = seq![first];
    assert(both.drop_last() =~= one);
    assert(one.drop_last() =~= Seq::<nat>::empty());
    assert(after_held_trigger(stats, one) == stats.after_trigger(first, true)) by {
        reveal_with_fuel(after_held_trigger, 2);
    }
    assert(shots_fired(stats, one) == (if stats.fires(first, true) {
        1nat
    } else {
        0nat
    })) by {
        reveal_with_fuel(shots_fired, 2);
    }
    assert(after_held_trigger(stats, one).cooldown.duration == stats.cooldown.duration);
}

/// Holding the trigger through a run of ticks never changes the length of
/// the cooldown.
pub proof fn law_cooldown_length_is_fixed(stats: PlayerStatsView, deltas: Seq<nat>)
    ensures
        after_held_trigger(stats, deltas).cooldown.duration == stats.cooldown.duration,
    decreases deltas.len(),
{
    if deltas.len() > 0 {
        law_cooldown_length_is_fixed(stats, deltas.drop_last());
    }
}

/// While a cooldown that starts from zero has not run its length, the weapon
/// does not fire: a run of ticks that together stay below the cooldown fires
/// no shot, and leaves the cooldown at the time of the run.
pub proof fn law_no_shot_before_cooldown(stats: PlayerStatsView, deltas: Seq<nat>)
    requires
        stats.cooldown.elapsed == 0,
        !stats.cooldown.finished,
        total(deltas) < stats.cooldown.duration,
    ensures
        shots_fired(stats, deltas) == 0,
        after_held_trigger(stats, deltas) == (PlayerStatsView {
            cooldown: CountdownView {
                duration: stats.cooldown.duration,
                elapsed: total(deltas),
                finished: false,
            },
            ..stats
        }),
    decreases deltas.len(),
{
    if deltas.len() > 0 {
        law_no_shot_before_cooldown(stats, deltas.drop_last());
    }
}

/// A bullet whose lifetime of `T` nanoseconds is unused has, after a run of
/// ticks, expired exactly when the ticks add up to `T` or more; until then
/// its countdown stands at the sum of the ticks.
pub proof fn law_bullet_expires_at_lifetime(bullet: BulletView, deltas: Seq<nat>)
    requires
        bullet.timer.elapsed == 0,
        !bullet.timer.finished,
        bullet.timer.duration > 0,
    ensures
        aged_through(bullet, deltas).expired() <==> total(deltas) >= bullet.timer.duration,
        aged_through(bullet, deltas).origin == bullet.origin,
        aged_through(bullet, deltas).tint == bullet.tint,
        aged_through(bullet, deltas).timer.duration == bullet.timer.duration,
        total(deltas) < bullet.timer.duration ==> aged_through(bullet, deltas).timer.elapsed
            == total(deltas),
    decreases deltas.len(),
{
    if deltas.len() > 0 {
        law_bullet_expires_at_lifetime(bullet, deltas.drop_last());
    }
}

/// A bullet with an unused lifetime of `T` nanoseconds is still among the
/// live bullets after every run of culling ticks that add up to less than
/// `T`, and is gone after every run that adds up to `T` or more.
pub proof fn law_bullet_culled_at_lifetime(bullet: BulletView, deltas: Seq<nat>)
    requires
        bullet.timer.elapsed == 0,
        !bullet.timer.finished,
        bullet.timer.duration > 0,
    ensures
        culled_through(seq![bullet], deltas) == if total(deltas) < bullet.timer.duration {
            seq![aged_through(bullet, deltas)]
        } else {
            Seq::<BulletView>::empty()
        },
    decreases deltas.len(),
{
    if deltas.len() > 0 {
        let earlier = deltas.drop_last();
        let nothing = Seq::<BulletView>::empty();
        law_bullet_culled_at_lifetime(bullet, earlier);
        law_bullet_expires_at_lifetime(bullet, earlier);
        law_bullet_expires_at_lifetime(bullet, deltas);
        assert(survivors(nothing, deltas.last()) =~= nothing) by {
            reveal(Seq::filter);
        }
        if total(earlier) < bullet.timer.duration {
            let aged = aged_through(bullet, earlier);
            assert(seq![aged] =~= nothing.push(aged));
            lemma_survivors_push(nothing, aged, deltas.last());
            assert(nothing.push(aged.aged(deltas.last())) =~= seq![aged_through(bullet, deltas)]);
        }
    }
}

/// A pressed reset leaves the start of a game whatever the world held
/// before: one fresh player with no score and full ammunition, the goal
/// marker, the holder of the hostile spawn timer, and no hostile, bullet,
/// pickup, pickup indicator or goal star.  Resetting twice is the same as
/// resetting once, and a reset that is not pressed changes nothing.
pub proof fn law_reset_restores_start(world: WorldView)
    ensures
        world.after_reset(true) == WorldView::fresh_start(),
        world.after_reset(true).after_reset(true) == world.after_reset(true),
        world.after_reset(false) == world,
        world.after_reset(true).player == Some(PlayerView::fresh()),
        world.after_reset(true).player.unwrap().stats.score == 0,
        world.after_reset(true).player.unwrap().stats.ammunition == FULL_AMMUNITION,
        !world.after_reset(true).player.unwrap().stats.cooldown.finished,
        world.after_reset(true).has_target,
        world.after_reset(true).has_enemy_spawn_timer,
        world.after_reset(true).enemies.len() == 0,
        world.after_reset(true).bullets.len() == 0,
        world.after_reset(true).jerry_cans.len() == 0,
        world.after_reset(true).ui_jerry_cans == 0,
        world.after_reset(true).stars == 0,
{
}

/// Death needs a hostile in reach: a world without a player, or one in which
/// every hostile stands at the hit radius or farther from the player, has no
/// hit; a world with a player and one hostile in reach has one.
pub proof fn law_hit_needs_hostile_in_reach(world: WorldView, index: int)
    ensures
        world.player.is_none() ==> !world.player_hit(),
        (forall|i: int|
            0 <= i < world.enemies.len() ==> !world.player.unwrap().position.within_reach(
                #[trigger] world.enemies[i],
            )) ==> !world.player_hit(),
        world.player.is_some() && 0 <= index < world.enemies.len()
            && world.player.unwrap().position.within_reach(world.enemies[index])
            ==> world.player_hit(),
{
}

} // verus!
