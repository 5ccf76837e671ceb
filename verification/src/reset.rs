//! The initial spawn sequence and the reset that returns the world to it.

use crate::player::setup_player;
use crate::world::{World, WorldView};
use vstd::prelude::*;

verus! {

/// Puts the holder of the hostile spawn timer into the world.
pub fn setup_enemy_spawn_timer(world: &mut World)
    ensures
        final(world)@ == (WorldView { has_enemy_spawn_timer: true, ..old(world)@ }),
{
    world.has_enemy_spawn_timer = true;
}

/// Puts the goal marker into the world.
pub fn setup_target(world: &mut World)
    ensures
        final(world)@ == (WorldView { has_target: true, ..old(world)@ }),
{
    world.has_target = true;
}

/// Removes every entity from the world.  Kinds of which nothing exists are
/// passed over.
pub fn clear_world(world: &mut World)
    ensures
        final(world)@ == WorldView::empty(),
{
    world.player = None;
    world.has_target = false;
    world.enemies.clear();
    world.has_enemy_spawn_timer = false;
    world.bullets.clear();
    world.jerry_cans.clear();
    world.ui_jerry_cans = 0;
    world.stars = 0;
    assert(world@.bullets =~= Seq::empty());
}

/// Runs the reset check of a tick.  When the reset signal fired, everything
/// in the world is removed and the initial spawn sequence runs again: a fresh
/// player, the holder of the hostile spawn timer, and the goal marker.
/// Otherwise the world stays as it is.  Reports whether the world was reset.
pub fn reset_game(world: &mut World, pressed: bool) -> (reset: bool)
    ensures
        reset == pressed,
        final(world)@ == old(world)@.after_reset(pressed),
{
    if !pressed {
        return false;
    }
    clear_world(world);
    setup_player(world);
    setup_enemy_spawn_timer(world);
    setup_target(world);
    true
}

} // verus!
