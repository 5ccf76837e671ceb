//! The per-tick phases that concern the player and its bullets: weapon
//! handling, bullet spawning and culling, and death by collision.

use crate::geometry::Position;
use crate::random::draw_in_range;
use crate::world::{
    bullet_views, is_burst, lemma_survivors_push, survivors, Bullet, Player, PlayerView, World,
    WorldView, DEATH_BURST, MAX_BULLET_TTL_MILLIS, MIN_BULLET_TTL_MILLIS, SHOT_BATCH, TINT_DRAWS,
};
use rand::rngs::StdRng;
use vstd::prelude::*;

verus! {

/// Puts a fresh player into the world, in place of any that was there.
pub fn setup_player(world: &mut World)
    ensures
        final(world)@ == (WorldView { player: Some(PlayerView::fresh()), ..old(world)@ }),
{
    world.player = Some(Player::new());
}

/// Spawns `count` bullets at `origin`, each with a tint and a lifetime drawn
/// from `rng`, behind the bullets that are already live.
pub fn spawn_bullets(world: &mut World, count: u32, origin: Position, rng: &mut StdRng)
    ensures
        is_burst(old(world)@.bullets, final(world)@.bullets, count as nat, origin),
        final(world)@ == (WorldView { bullets: final(world)@.bullets, ..old(world)@ }),
{
    let mut spawned: u32 = 0;
    assert(world@.bullets.subrange(0, world@.bullets.len() as int) =~= world@.bullets);
    while spawned < count
        invariant
            spawned <= count,
            is_burst(old(world)@.bullets, world@.bullets, spawned as nat, origin),
            world@ == (WorldView { bullets: world@.bullets, ..old(world)@ }),
        decreases count - spawned,
    {
        let tint_draw = draw_in_range(rng, 0, TINT_DRAWS);
        let ttl_millis = draw_in_range(rng, MIN_BULLET_TTL_MILLIS, MAX_BULLET_TTL_MILLIS);
        let bullet = Bullet::from_draws(origin, tint_draw, ttl_millis as u32);
        let ghost before = world@.bullets;
        world.bullets.push(bullet);
        proof {
            assert(world@.bullets =~= before.push(bullet@));
            assert(bullet@.fresh_at(origin));
            assert(world@.bullets.subrange(0, old(world)@.bullets.len() as int) =~= before.subrange(
                0,
                old(world)@.bullets.len() as int,
            ));
        }
        spawned += 1;
    }
}

/// Runs the weapon phase of a tick: the shoot cooldown counts `delta`
/// nanoseconds, and a held trigger on a ready weapon costs one round, rewinds
/// the cooldown and spawns a batch of bullets where the player stands.
/// Reports whether a shot was fired.  Without a player nothing happens.
pub fn control_player(world: &mut World, delta: u64, trigger: bool, rng: &mut StdRng) -> (fired:
    bool)
    ensures
        fired == old(world)@.fires(delta as nat, trigger),
        final(world)@.player == old(world)@.player_after_trigger(delta as nat, trigger),
        fired ==> is_burst(
            old(world)@.bullets,
            final(world)@.bullets,
            SHOT_BATCH as nat,
            old(world)@.player.unwrap().position,
        ),
        !fired ==> final(world)@.bullets == old(world)@.bullets,
        final(world)@ == (WorldView {
            player: final(world)@.player,
            bullets: final(world)@.bullets,
            ..old(world)@
        }),
{
    match world.player {
        None => false,
        Some(player) => {
            let mut player = player;
            let fired = player.stats.pull_trigger(delta, trigger);
            world.player = Some(player);
            if fired {
                spawn_bullets(world, SHOT_BATCH, player.position, rng);
            }
            fired
        },
    }
}

/// Ages every bullet by `delta` nanoseconds and removes those whose lifetime
/// is used up.  The result tells, for each bullet that was live before the
/// call and in the same order, whether it was removed.
pub fn delete_bullets(world: &mut World, delta: u64) -> (culled: Vec<bool>)
    ensures
        final(world)@ == old(world)@.after_cull(delta as nat),
        culled@.len() == old(world)@.bullets.len(),
        forall|i: int|
            0 <= i < culled@.len() ==> culled@[i] == (#[trigger] old(world)@.bullets[i]).aged(
                delta as nat,
            ).expired(),
{
    let mut kept: Vec<Bullet> = Vec::new();
    let mut culled: Vec<bool> = Vec::new();
    let mut index: usize = 0;
    let total = world.bullets.len();
    assert(world@.bullets.take(0) =~= Seq::empty());
    assert(bullet_views(kept@) =~= Seq::empty());
    assert(survivors(Seq::empty(), delta as nat) =~= Seq::empty()) by {
        reveal(Seq::filter);
    }
    while index < total
        invariant
            *world == *old(world),
            total == world.bullets@.len(),
            index <= total,
            culled@.len() == index,
            bullet_views(kept@) == survivors(world@.bullets.take(index as int), delta as nat),
            forall|i: int|
                0 <= i < index ==> culled@[i] == (#[trigger] world@.bullets[i]).aged(
                    delta as nat,
                ).expired(),
        decreases total - index,
    {
        let mut bullet = world.bullets[index];
        let expired = bullet.age(delta);
        proof {
            let seen = world@.bullets.take(index as int);
            assert(world@.bullets.take(index + 1) =~= seen.push(world@.bullets[index as int]));
            lemma_survivors_push(seen, world@.bullets[index as int], delta as nat);
            assert(bullet_views(kept@.push(bullet)) =~= bullet_views(kept@).push(bullet@));
        }
        culled.push(expired);
        if !expired {
            kept.push(bullet);
        }
        index += 1;
    }
    assert(world@.bullets.take(total as int) =~= world@.bullets);
    world.bullets = kept;
    culled
}

/// Finds the first hostile that stands strictly closer to `at` than the hit
/// radius.
pub fn first_hostile_in_reach(at: &Position, enemies: &Vec<Position>) -> (found: Option<usize>)
    ensures
        match found {
            Some(index) => {
                &&& index < enemies@.len()
                &&& at.within_reach(enemies@[index as int])
                &&& forall|i: int| 0 <= i < index ==> !at.within_reach(#[trigger] enemies@[i])
            },
            None => forall|i: int| 0 <= i < enemies@.len() ==> !at.within_reach(#[trigger] enemies@[i]),
        },
{
    let mut index: usize = 0;
    while index < enemies.len()
        invariant
            index <= enemies@.len(),
            forall|i: int| 0 <= i < index ==> !at.within_reach(#[trigger] enemies@[i]),
        decreases enemies@.len() - index,
    {
        if at.is_within_reach(&enemies[index]) {
            return Some(index);
        }
        index += 1;
    }
    None
}

/// Runs the collision phase of a tick.  If the player is alive and a hostile
/// stands strictly closer to it than the hit radius, the player dies: it
/// leaves the world, a burst of bullets is spawned where it stood, and one
/// pickup is dropped there.  This happens once, however many hostiles are in
/// reach.  Otherwise the world stays as it is.  Reports whether the player
/// died.
pub fn kill_player(world: &mut World, rng: &mut StdRng) -> (died: bool)
    ensures
        died == old(world)@.player_hit(),
        !died ==> final(world)@ == old(world)@,
        died ==> {
            let at = old(world)@.player.unwrap().position;
            &&& is_burst(old(world)@.bullets, final(world)@.bullets, DEATH_BURST as nat, at)
            &&& final(world)@ == (WorldView {
                player: None,
                bullets: final(world)@.bullets,
                jerry_cans: old(world)@.jerry_cans.push(at),
                ..old(world)@
            })
        },
{
    let player = match world.player {
        None => {
            return false;
        },
        Some(player) => player,
    };
    match first_hostile_in_reach(&player.position, &world.enemies) {
        None => false,
        Some(_) => {
            world.player = None;
            spawn_bullets(world, DEATH_BURST, player.position, rng);
            world.jerry_cans.push(player.position);
            true
        },
    }
}

} // verus!
