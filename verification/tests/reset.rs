use arcade_core::geometry::Position;
use arcade_core::player::{control_player, kill_player, setup_player, spawn_bullets};
use arcade_core::reset::{clear_world, reset_game, setup_enemy_spawn_timer, setup_target};
use arcade_core::world::World;
use rand::rngs::StdRng;
use rand::SeedableRng;

fn assert_fresh_start(world: &World) {
    let player = world.player.unwrap();
    assert_eq!(player.position, Position { x: 0, y: 0 });
    assert_eq!(player.stats.score, 0);
    assert_eq!(player.stats.ammunition, 100);
    assert_eq!(player.stats.shoot_timer.duration_nanos(), 5_000_000);
    assert_eq!(player.stats.shoot_timer.elapsed_nanos(), 0);
    assert!(!player.stats.shoot_timer.finished());
    assert!(world.has_target);
    assert!(world.has_enemy_spawn_timer);
    assert_eq!(world.enemies.len(), 0);
    assert_eq!(world.bullets.len(), 0);
    assert_eq!(world.jerry_cans.len(), 0);
    assert_eq!(world.ui_jerry_cans, 0);
    assert_eq!(world.stars, 0);
}

#[test]
fn new_world_is_empty() {
    let world = World::new();
    assert!(world.player.is_none());
    assert!(!world.has_target);
    assert!(!world.has_enemy_spawn_timer);
    assert_eq!(world.enemies.len(), 0);
    assert_eq!(world.bullets.len(), 0);
    assert_eq!(world.jerry_cans.len(), 0);
    assert_eq!(world.ui_jerry_cans, 0);
    assert_eq!(world.stars, 0);
}

#[test]
fn reset_of_an_empty_world_runs_the_spawn_sequence() {
    let mut world = World::new();
    assert!(reset_game(&mut world, true));
    assert_fresh_start(&world);
}

#[test]
fn reset_after_death_leaves_a_fresh_start() {
    let mut rng = StdRng::seed_from_u64(31);
    let mut world = World::new();
    reset_game(&mut world, true);
    world.enemies.push(Position { x: 10, y: 10 });
    world.enemies.push(Position { x: 90_000, y: 10 });
    assert!(control_player(&mut world, 5_000_000, true, &mut rng));
    assert!(kill_player(&mut world, &mut rng));
    world.jerry_cans.push(Position { x: 1, y: 1 });
    world.ui_jerry_cans = 3;
    world.stars = 5;
    assert!(world.player.is_none());
    assert_eq!(world.bullets.len(), 55);
    assert_eq!(world.jerry_cans.len(), 2);
    assert!(reset_game(&mut world, true));
    assert_fresh_start(&world);
}

#[test]
fn reset_with_a_worn_player_restores_the_defaults() {
    let mut rng = StdRng::seed_from_u64(32);
    let mut world = World::new();
    setup_player(&mut world);
    let mut player = world.player.unwrap();
    player.stats.score = 41;
    player.stats.ammunition = 0;
    player.stats.shoot_timer.tick(9_000_000);
    player.position = Position { x: -77, y: 12 };
    world.player = Some(player);
    spawn_bullets(&mut world, 17, Position { x: 1, y: 1 }, &mut rng);
    assert!(reset_game(&mut world, true));
    assert_fresh_start(&world);
}

#[test]
fn reset_twice_is_reset_once() {
    let mut world = World::new();
    world.stars = 2;
    assert!(reset_game(&mut world, true));
    assert!(reset_game(&mut world, true));
    assert_fresh_start(&world);
}

#[test]
fn reset_that_is_not_pressed_changes_nothing() {
    let mut rng = StdRng::seed_from_u64(33);
    let mut world = World::new();
    setup_player(&mut world);
    let mut player = world.player.unwrap();
    player.stats.score = 6;
    player.stats.ammunition = 12;
    world.player = Some(player);
    world.enemies.push(Position { x: 50_000, y: 0 });
    world.jerry_cans.push(Position { x: 3, y: 4 });
    world.ui_jerry_cans = 1;
    world.stars = 2;
    spawn_bullets(&mut world, 6, Position { x: 0, y: 0 }, &mut rng);
    assert!(!reset_game(&mut world, false));
    let player = world.player.unwrap();
    assert_eq!(player.stats.score, 6);
    assert_eq!(player.stats.ammunition, 12);
    assert!(!world.has_target);
    assert!(!world.has_enemy_spawn_timer);
    assert_eq!(world.enemies, vec![Position { x: 50_000, y: 0 }]);
    assert_eq!(world.bullets.len(), 6);
    assert_eq!(world.jerry_cans, vec![Position { x: 3, y: 4 }]);
    assert_eq!(world.ui_jerry_cans, 1);
    assert_eq!(world.stars, 2);
}

#[test]
fn clear_world_removes_everything() {
    let mut rng = StdRng::seed_from_u64(34);
    let mut world = World::new();
    reset_game(&mut world, true);
    world.enemies.push(Position { x: 1, y: 1 });
    world.jerry_cans.push(Position { x: 1, y: 1 });
    world.ui_jerry_cans = 1;
    world.stars = 1;
    spawn_bullets(&mut world, 2, Position { x: 0, y: 0 }, &mut rng);
    clear_world(&mut world);
    assert!(world.player.is_none());
    assert!(!world.has_target);
    assert!(!world.has_enemy_spawn_timer);
    assert_eq!(world.enemies.len(), 0);
    assert_eq!(world.bullets.len(), 0);
    assert_eq!(world.jerry_cans.len(), 0);
    assert_eq!(world.ui_jerry_cans, 0);
    assert_eq!(world.stars, 0);
}

#[test]
fn setup_steps_touch_only_their_own_entity() {
    let mut world = World::new();
    world.stars = 7;
    setup_target(&mut world);
    assert!(world.has_target);
    assert!(!world.has_enemy_spawn_timer);
    assert!(world.player.is_none());
    setup_enemy_spawn_timer(&mut world);
    assert!(world.has_target);
    assert!(world.has_enemy_spawn_timer);
    assert!(world.player.is_none());
    assert_eq!(world.stars, 7);
}
