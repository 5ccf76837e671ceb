//! The entities of the simulation, their mathematical views, and the rules
//! of the simulation stated over those views.

use crate::geometry::Position;
use crate::timer::{Countdown, CountdownView};
use vstd::prelude::*;

verus! {

/// Ammunition of a freshly spawned player.
pub const FULL_AMMUNITION: u32 = 100;

/// Time the weapon needs between two shots, in nanoseconds.
pub const SHOOT_COOLDOWN_NANOS: u64 = 5_000_000;

/// Number of bullets that one shot spawns.
pub const SHOT_BATCH: u32 = 10;

/// Number of bullets that the death of the player spawns.
pub const DEATH_BURST: u32 = 45;

/// Shortest lifetime of a bullet, in milliseconds.
pub const MIN_BULLET_TTL_MILLIS: u64 = 50;

/// Bound that the lifetime of a bullet stays below, in milliseconds.
pub const MAX_BULLET_TTL_MILLIS: u64 = 250;

/// Nanoseconds in one millisecond.
pub const NANOS_PER_MILLI: u64 = 1_000_000;

/// Number of equally likely outcomes of the draw that picks a bullet's tint.
pub const TINT_DRAWS: u64 = 6;

/// Colour class of a bullet.
#[derive(Clone, Copy, PartialEq, Eq, Structural, Debug)]
pub enum Tint {
    Red,
    Orange,
    Amber,
    Smoke,
}

impl Tint {
    /// The tint that a draw stands for: two draws in six are red, one is
    /// orange, two are amber, and whatever is left is smoke.
    pub open spec fn of_draw(draw: nat) -> Tint {
        if draw <= 1 {
            Tint::Red
        } else if draw <= 2 {
            Tint::Orange
        } else if draw <= 4 {
            Tint::Amber
        } else {
            Tint::Smoke
        }
    }

    /// Picks the tint that a draw stands for.
    pub fn from_draw(draw: u64) -> (tint: Tint)
        ensures
            tint == Tint::of_draw(draw as nat),
    {
        if draw <= 1 {
            Tint::Red
        } else if draw <= 2 {
            Tint::Orange
        } else if draw <= 4 {
            Tint::Amber
        } else {
            Tint::Smoke
        }
    }
}

/// Mathematical state of a player's counters and weapon.
pub struct PlayerStatsView {
    pub score: nat,
    pub cooldown: CountdownView,
    pub ammunition: nat,
}

impl PlayerStatsView {
    /// Counters of a freshly spawned player: no score, full ammunition and a
    /// cooldown that has yet to run.
    pub open spec fn fresh() -> PlayerStatsView {
        PlayerStatsView {
            score: 0,
            cooldown: CountdownView::fresh(SHOOT_COOLDOWN_NANOS as nat),
            ammunition: FULL_AMMUNITION as nat,
        }
    }

    /// Whether the weapon is ready: the cooldown has run out and there is
    /// ammunition left.  A weapon that is not ready is idle.
    pub open spec fn ready(self) -> bool {
        self.cooldown.finished && self.ammunition > 0
    }

    /// The counters once the cooldown has counted `delta` more nanoseconds.
    pub open spec fn cooled(self, delta: nat) -> PlayerStatsView {
        PlayerStatsView {
            score: self.score,
            cooldown: self.cooldown.tick(delta),
            ammunition: self.ammunition,
        }
    }

    /// Whether a tick of `delta` nanoseconds with the given trigger state
    /// fires a shot: the trigger is held and the weapon is ready once the
    /// cooldown has counted the tick.
    pub open spec fn fires(self, delta: nat, trigger: bool) -> bool {
        trigger && self.cooled(delta).ready()
    }

    /// The counters after a tick of `delta` nanoseconds with the given
    /// trigger state.  The cooldown counts the tick; a shot then costs one
    /// round and rewinds the cooldown.
    pub open spec fn after_trigger(self, delta: nat, trigger: bool) -> PlayerStatsView {
        if self.fires(delta, trigger) {
            PlayerStatsView {
                score: self.score,
                cooldown: self.cooldown.tick(delta).reset(),
                ammunition: (self.ammunition - 1) as nat,
            }
        } else {
            self.cooled(delta)
        }
    }
}

/// Score, ammunition and shoot cooldown of a player.
#[derive(Clone, Copy, Debug)]
pub struct PlayerStats {
    pub score: u32,
    pub shoot_timer: Countdown,
    pub ammunition: u32,
}

impl View for PlayerStats {
    type V = PlayerStatsView;

    open spec fn view(&self) -> PlayerStatsView {
        PlayerStatsView {
            score: self.score as nat,
            cooldown: self.shoot_timer@,
            ammunition: self.ammunition as nat,
        }
    }
}

impl PlayerStats {
    /// Counters of a freshly spawned player.
    pub fn new() -> (stats: PlayerStats)
        ensures
            stats@ == PlayerStatsView::fresh(),
    {
        PlayerStats {
            score: 0,
            shoot_timer: Countdown::new(SHOOT_COOLDOWN_NANOS),
            ammunition: FULL_AMMUNITION,
        }
    }

    /// Runs the weapon for one tick of `delta` nanoseconds and reports
    /// whether it fired.
    pub fn pull_trigger(&mut self, delta: u64, trigger: bool) -> (fired: bool)
        ensures
            fired == old(self)@.fires(delta as nat, trigger),
            final(self)@ == old(self)@.after_trigger(delta as nat, trigger),
    {
        self.shoot_timer.tick(delta);
        if trigger && self.shoot_timer.finished() && self.ammunition > 0 {
            self.ammunition = self.ammunition - 1;
            self.shoot_timer.reset();
            true
        } else {
            false
        }
    }
}

/// Mathematical state of a player.
pub struct PlayerView {
    pub position: Position,
    pub stats: PlayerStatsView,
}

impl PlayerView {
    /// A freshly spawned player: at the origin, with fresh counters.
    pub open spec fn fresh() -> PlayerView {
        PlayerView { position: Position::origin(), stats: PlayerStatsView::fresh() }
    }
}

/// The player: where it stands on the grid, and its counters.
#[derive(Clone, Copy, Debug)]
pub struct Player {
    pub position: Position,
    pub stats: PlayerStats,
}

impl View for Player {
    type V = PlayerView;

    open spec fn view(&self) -> PlayerView {
        PlayerView { position: self.position, stats: self.stats@ }
    }
}

impl Player {
    /// A freshly spawned player.
    pub fn new() -> (player: Player)
        ensures
            player@ == PlayerView::fresh(),
    {
        Player { position: Position { x: 0, y: 0 }, stats: PlayerStats::new() }
    }
}

/// Mathematical state of a bullet.
pub struct BulletView {
    pub timer: CountdownView,
    pub origin: Position,
    pub tint: Tint,
}

impl BulletView {
    /// The bullet after `delta` more nanoseconds of flight.
    pub open spec fn aged(self, delta: nat) -> BulletView {
        BulletView { timer: self.timer.tick(delta), origin: self.origin, tint: self.tint }
    }

    /// Whether the bullet has used up its lifetime.
    pub open spec fn expired(self) -> bool {
        self.timer.finished
    }

    /// Whether the bullet is one that was just spawned at `origin`: its
    /// lifetime is a whole number of milliseconds within the allowed range,
    /// and none of it is used up.
    pub open spec fn fresh_at(self, origin: Position) -> bool {
        &&& self.origin == origin
        &&& self.timer.elapsed == 0
        &&& !self.timer.finished
        &&& self.timer.duration % (NANOS_PER_MILLI as nat) == 0
        &&& MIN_BULLET_TTL_MILLIS * NANOS_PER_MILLI <= self.timer.duration
        &&& self.timer.duration < MAX_BULLET_TTL_MILLIS * NANOS_PER_MILLI
    }
}

/// A short-lived projectile: the countdown of its lifetime, the place where
/// it was spawned, and its tint.
#[derive(Clone, Copy, Debug)]
pub struct Bullet {
    pub timer: Countdown,
    pub origin: Position,
    pub tint: Tint,
}

impl View for Bullet {
    type V = BulletView;

    open spec fn view(&self) -> BulletView {
        BulletView { timer: self.timer@, origin: self.origin, tint: self.tint }
    }
}

impl Bullet {
    /// The bullet that two draws describe: `tint_draw` picks the tint and
    /// `ttl_millis` is the lifetime in milliseconds.
    pub fn from_draws(origin: Position, tint_draw: u64, ttl_millis: u32) -> (bullet: Bullet)
        ensures
            bullet@ == (BulletView {
                timer: CountdownView::fresh((ttl_millis * NANOS_PER_MILLI) as nat),
                origin,
                tint: Tint::of_draw(tint_draw as nat),
            }),
    {
        let nanos: u64 = ttl_millis as u64 * NANOS_PER_MILLI;
        Bullet { timer: Countdown::new(nanos), origin, tint: Tint::from_draw(tint_draw) }
    }

    /// Ages the bullet by `delta` nanoseconds and reports whether its
    /// lifetime is used up.
    pub fn age(&mut self, delta: u64) -> (expired: bool)
        ensures
            final(self)@ == old(self)@.aged(delta as nat),
            expired == final(self)@.expired(),
    {
        self.timer.tick(delta);
        self.timer.finished()
    }
}

/// The bullets that are left of `bullets` once each has aged by `delta`
/// nanoseconds and the expired ones are gone, in their old order.
pub open spec fn survivors(bullets: Seq<BulletView>, delta: nat) -> Seq<BulletView> {
    bullets.map_values(|b: BulletView| b.aged(delta)).filter(|b: BulletView| !b.expired())
}

/// Culling a run of bullets with one more bullet at its end culls the run
/// and then keeps or drops the aged last bullet.
pub proof fn lemma_survivors_push(bullets: Seq<BulletView>, last: BulletView, delta: nat)
    ensures
        survivors(bullets.push(last), delta) == if last.aged(delta).expired() {
            survivors(bullets, delta)
        } else {
            survivors(bullets, delta).push(last.aged(delta))
        },
{
    let age = |b: BulletView| b.aged(delta);
    let alive = |b: BulletView| !b.expired();
    assert(bullets.push(last).map_values(age) =~= bullets.map_values(age).push(last.aged(delta)));
    bullets.map_values(age).lemma_filter_push(last.aged(delta), alive);
}

/// Whether `after` is `before` followed by exactly `count` bullets freshly
/// spawned at `origin`.
pub open spec fn is_burst(
    before: Seq<BulletView>,
    after: Seq<BulletView>,
    count: nat,
    origin: Position,
) -> bool {
    &&& after.len() == before.len() + count
    &&& after.subrange(0, before.len() as int) == before
    &&& forall|i: int| before.len() <= i < after.len() ==> (#[trigger] after[i]).fresh_at(origin)
}

/// Mathematical state of the world.
pub struct WorldView {
    /// The player, while alive.
    pub player: Option<PlayerView>,
    /// Whether the goal marker exists.
    pub has_target: bool,
    /// Whether the holder of the hostile spawn timer exists.
    pub has_enemy_spawn_timer: bool,
    /// Where each hostile stands.
    pub enemies: Seq<Position>,
    /// The live bullets, oldest first.
    pub bullets: Seq<BulletView>,
    /// Where each pickup lies.
    pub jerry_cans: Seq<Position>,
    /// Number of pickup indicators.
    pub ui_jerry_cans: nat,
    /// Number of goal stars.
    pub stars: nat,
}

impl WorldView {
    /// The world with nothing in it.
    pub open spec fn empty() -> WorldView {
        WorldView {
            player: None,
            has_target: false,
            has_enemy_spawn_timer: false,
            enemies: Seq::empty(),
            bullets: Seq::empty(),
            jerry_cans: Seq::empty(),
            ui_jerry_cans: 0,
            stars: 0,
        }
    }

    /// The world at the start of a game: one fresh player, the goal marker,
    /// the holder of the hostile spawn timer, and nothing else.
    pub open spec fn fresh_start() -> WorldView {
        WorldView {
            player: Some(PlayerView::fresh()),
            has_target: true,
            has_enemy_spawn_timer: true,
            enemies: Seq::empty(),
            bullets: Seq::empty(),
            jerry_cans: Seq::empty(),
            ui_jerry_cans: 0,
            stars: 0,
        }
    }

    /// Whether the weapon phase of a tick fires a shot.
    pub open spec fn fires(self, delta: nat, trigger: bool) -> bool {
        self.player.is_some() && self.player.unwrap().stats.fires(delta, trigger)
    }

    /// The player after the weapon phase of a tick.
    pub open spec fn player_after_trigger(self, delta: nat, trigger: bool) -> Option<PlayerView> {
        match self.player {
            Some(player) => Some(
                PlayerView {
                    position: player.position,
                    stats: player.stats.after_trigger(delta, trigger),
                },
            ),
            None => None,
        }
    }

    /// The world after every bullet has aged by `delta` nanoseconds and the
    /// expired ones are gone.
    pub open spec fn after_cull(self, delta: nat) -> WorldView {
        WorldView { bullets: survivors(self.bullets, delta), ..self }
    }

    /// Whether the player is alive and some hostile stands strictly closer to
    /// it than the hit radius.
    pub open spec fn player_hit(self) -> bool {
        &&& self.player.is_some()
        &&& exists|i: int|
            0 <= i < self.enemies.len() && self.player.unwrap().position.within_reach(
                #[trigger] self.enemies[i],
            )
    }

    /// The world after a reset check: a pressed reset leaves the start of a
    /// game, whatever was there before.
    pub open spec fn after_reset(self, pressed: bool) -> WorldView {
        if pressed {
            WorldView::fresh_start()
        } else {
            self
        }
    }
}

/// Everything that exists in the simulation.
#[derive(Debug)]
pub struct World {
    /// The player, while alive.
    pub player: Option<Player>,
    /// Whether the goal marker exists.
    pub has_target: bool,
    /// Whether the holder of the hostile spawn timer exists.
    pub has_enemy_spawn_timer: bool,
    /// Where each hostile stands.
    pub enemies: Vec<Position>,
    /// The live bullets, oldest first.
    pub bullets: Vec<Bullet>,
    /// Where each pickup lies.
    pub jerry_cans: Vec<Position>,
    /// Number of pickup indicators.
    pub ui_jerry_cans: usize,
    /// Number of goal stars.
    pub stars: usize,
}

/// The views of a run of bullets.
pub open spec fn bullet_views(bullets: Seq<Bullet>) -> Seq<BulletView> {
    bullets.map_values(|b: Bullet| b@)
}

impl View for World {
    type V = WorldView;

    open spec fn view(&self) -> WorldView {
        WorldView {
            player: match self.player {
                Some(player) => Some(player@),
                None => None,
            },
            has_target: self.has_target,
            has_enemy_spawn_timer: self.has_enemy_spawn_timer,
            enemies: self.enemies@,
            bullets: bullet_views(self.bullets@),
            jerry_cans: self.jerry_cans@,
            ui_jerry_cans: self.ui_jerry_cans as nat,
            stars: self.stars as nat,
        }
    }
}

impl World {
    /// A world with nothing in it.
    pub fn new() -> (world: World)
        ensures
            world@ == WorldView::empty(),
    {
        let world = World {
            player: None,
            has_target: false,
            has_enemy_spawn_timer: false,
            enemies: Vec::new(),
            bullets: Vec::new(),
            jerry_cans: Vec::new(),
            ui_jerry_cans: 0,
            stars: 0,
        };
        assert(world@.bullets =~= Seq::empty());
        world
    }
}

} // verus!
