use vstd::prelude::*;
use crate::random::{draw_below, entropy_rng};
use crate::timer::{fresh, Timer, TimerMode, NANOS_PER_SECOND};

verus! {

/// Number of enemies in a fresh simulation.
pub const INITIAL_ENEMIES: u32 = 4;

/// Number of enemies that a new game aims at before the timer adds more.
pub const ENEMIES_AT_GAME_START: u32 = 3;

/// Period of the timer that adds an enemy, in nanoseconds.
pub const ENEMY_GROWTH_PERIOD: u64 = 5_000_000_000;

/// How long invincibility lasts, in nanoseconds.
pub const INVINCIBILITY_DURATION: u64 = 30_000_000_000;

/// The invincibility pickup comes back after less than this many seconds.
pub const INVINCI_SPAWN_WINDOW: u64 = 240;

/// The coffee pickup comes back after less than this many seconds.
pub const COFFEE_SPAWN_WINDOW: u64 = 90;

/// Period of the ambient jingle, in nanoseconds.
pub const JINGLE_PERIOD: u64 = 26_000_000_000;

/// Time already counted when the jingle is switched on, in nanoseconds: the
/// first one plays a second later.
pub const JINGLE_HEAD_START: u64 = 25_000_000_000;

/// Jingle delay after an invincibility pickup, in nanoseconds.
pub const JINGLE_DELAY_AFTER_INVINCI: u64 = 32_000_000_000;

/// Jingle delay after a coffee pickup, in nanoseconds.
pub const JINGLE_DELAY_AFTER_COFFEE: u64 = 6_000_000_000;

/// Delay after which the menu is laid out again, in nanoseconds.
pub const MENU_REFRESH_PERIOD: u64 = 1_000_000_000;

/// Half a second, the span over which frames are counted, in nanoseconds.
pub const FPS_SAMPLE_SPAN: i64 = 500_000_000;

/// The number of enemies that the spawner aims at.
#[derive(Clone, Copy, Debug, PartialEq, Eq, Structural)]
pub struct Enemies {
    pub value: u32,
}

impl Default for Enemies {
    fn default() -> (made: Enemies)
        ensures
            made.value == INITIAL_ENEMIES,
    {
        Enemies { value: INITIAL_ENEMIES }
    }
}

/// The score of the current game.
#[derive(Clone, Copy, Debug, PartialEq, Eq, Structural)]
pub struct Score {
    pub value: u32,
}

impl Default for Score {
    fn default() -> (made: Score)
        ensures
            made.value == 0,
    {
        Score { value: 0 }
    }
}

/// The timer whose firing adds an enemy.
#[derive(Clone, Copy, Debug, PartialEq, Eq, Structural)]
pub struct SpawnEnemyTimer {
    pub timer: Timer,
}

impl Default for SpawnEnemyTimer {
    fn default() -> (made: SpawnEnemyTimer)
        ensures
            made.timer == fresh(ENEMY_GROWTH_PERIOD, TimerMode::Repeating),
    {
        SpawnEnemyTimer { timer: Timer::new(ENEMY_GROWTH_PERIOD, TimerMode::Repeating) }
    }
}

/// Counts frames to tell how many are drawn per second.
#[derive(Clone, Copy, Debug, PartialEq, Eq, Structural)]
pub struct FpsTracker {
    pub enabled: bool,
    pub fps: u32,
    /// Time gathered since the last sample, in nanoseconds. A sample takes a
    /// whole second off, so this may be negative.
    pub frame_time: i64,
    pub frame_count: u32,
}

impl Default for FpsTracker {
    fn default() -> (made: FpsTracker)
        ensures
            made == (FpsTracker { enabled: true, fps: 0, frame_time: 0, frame_count: 0 }),
    {
        FpsTracker { enabled: true, fps: 0, frame_time: 0, frame_count: 0 }
    }
}

impl FpsTracker {
    /// The tracker after a frame of `delta` nanoseconds: the frame is counted,
    /// and once half a second has gathered the count becomes the reading, a
    /// second is taken off the gathered time and counting starts over.
    pub open spec fn updated(self, delta: u64) -> FpsTracker {
        if self.frame_time + delta >= FPS_SAMPLE_SPAN {
            FpsTracker {
                enabled: self.enabled,
                fps: (self.frame_count + 1) as u32,
                frame_time: (self.frame_time + delta - 2 * FPS_SAMPLE_SPAN) as i64,
                frame_count: 0,
            }
        } else {
            FpsTracker {
                enabled: self.enabled,
                fps: self.fps,
                frame_time: (self.frame_time + delta) as i64,
                frame_count: (self.frame_count + 1) as u32,
            }
        }
    }

    /// Whether a frame of `delta` nanoseconds can be counted without leaving
    /// the range of the counters.
    pub open spec fn can_update(self, delta: u64) -> bool {
        &&& self.frame_count < u32::MAX
        &&& self.frame_time + delta <= i64::MAX
    }

    /// Counts a frame of `delta` nanoseconds.
    pub fn update(&mut self, delta: u64)
        requires
            old(self).can_update(delta),
        ensures
            *final(self) == old(self).updated(delta),
    {
        let gathered: i128 = self.frame_time as i128 + delta as i128;
        self.frame_count = self.frame_count + 1;
        if gathered >= FPS_SAMPLE_SPAN as i128 {
            self.fps = self.frame_count;
            self.frame_time = (gathered - 2 * (FPS_SAMPLE_SPAN as i128)) as i64;
            self.frame_count = 0;
        } else {
            self.frame_time = gathered as i64;
        }
    }
}

/// The phase of the game.
#[derive(Clone, Copy, Debug, PartialEq, Eq, Hash, Structural)]
pub enum GameState {
    Menu,
    Game,
    Paused,
}

impl Default for GameState {
    fn default() -> (made: GameState)
        ensures
            made == GameState::Menu,
    {
        GameState::Menu
    }
}

/// Whether no game has been played yet.
#[derive(Clone, Copy, Debug, PartialEq, Eq, Structural)]
pub struct FirstGame {
    pub value: bool,
}

impl Default for FirstGame {
    fn default() -> (made: FirstGame)
        ensures
            made.value,
    {
        FirstGame { value: true }
    }
}

/// Whether the player is invincible.
#[derive(Clone, Copy, Debug, PartialEq, Eq, Hash, Structural)]
pub enum Invincible {
    Off,
    On,
}

impl Default for Invincible {
    fn default() -> (made: Invincible)
        ensures
            made == Invincible::Off,
    {
        Invincible::Off
    }
}

/// Whether the ambient jingle is switched on.
#[derive(Clone, Copy, Debug, PartialEq, Eq, Hash, Structural)]
pub enum MrProducerState {
    Off,
    On,
}

impl Default for MrProducerState {
    fn default() -> (made: MrProducerState)
        ensures
            made == MrProducerState::Off,
    {
        MrProducerState::Off
    }
}

/// The timer that brings the invincibility pickup, with the generator that
/// draws its next period.
pub struct SpawnInvinciTimer {
    pub timer: Timer,
    pub rng: rand::rngs::StdRng,
}

impl Default for SpawnInvinciTimer {
    /// A timer whose first period is drawn from the whole spawn window.
    fn default() -> (made: SpawnInvinciTimer)
        ensures
            made.timer == fresh(made.timer.duration, TimerMode::Repeating),
            made.timer.duration < INVINCI_SPAWN_WINDOW * NANOS_PER_SECOND,
    {
        let mut rng = entropy_rng();
        let period: u64 = draw_below(&mut rng, INVINCI_SPAWN_WINDOW * NANOS_PER_SECOND);
        SpawnInvinciTimer { timer: Timer::new(period, TimerMode::Repeating), rng }
    }
}

/// The timer that brings the coffee pickup, with the generator that draws its
/// next period.
pub struct SpawnCoffeeTimer {
    pub timer: Timer,
    pub rng: rand::rngs::StdRng,
}

impl Default for SpawnCoffeeTimer {
    /// A timer whose first period is drawn from the whole spawn window.
    fn default() -> (made: SpawnCoffeeTimer)
        ensures
            made.timer == fresh(made.timer.duration, TimerMode::Repeating),
            made.timer.duration < COFFEE_SPAWN_WINDOW * NANOS_PER_SECOND,
    {
        let mut rng = entropy_rng();
        let period: u64 = draw_below(&mut rng, COFFEE_SPAWN_WINDOW * NANOS_PER_SECOND);
        SpawnCoffeeTimer { timer: Timer::new(period, TimerMode::Repeating), rng }
    }
}

/// The timer that ends invincibility.
#[derive(Clone, Copy, Debug, PartialEq, Eq, Structural)]
pub struct InvinciDurationTimer {
    pub timer: Timer,
}

impl Default for InvinciDurationTimer {
    fn default() -> (made: InvinciDurationTimer)
        ensures
            made.timer == fresh(INVINCIBILITY_DURATION, TimerMode::Repeating),
    {
        InvinciDurationTimer { timer: Timer::new(INVINCIBILITY_DURATION, TimerMode::Repeating) }
    }
}

/// The timer that paces the ambient jingle.
#[derive(Clone, Copy, Debug, PartialEq, Eq, Structural)]
pub struct MrProducerTimer {
    pub timer: Timer,
}

impl Default for MrProducerTimer {
    fn default() -> (made: MrProducerTimer)
        ensures
            made.timer == fresh(JINGLE_PERIOD, TimerMode::Repeating),
    {
        MrProducerTimer { timer: Timer::new(JINGLE_PERIOD, TimerMode::Repeating) }
    }
}

/// The timer after which the menu is laid out again.
#[derive(Clone, Copy, Debug, PartialEq, Eq, Structural)]
pub struct FixMenuTimer {
    pub timer: Timer,
}

impl Default for FixMenuTimer {
    fn default() -> (made: FixMenuTimer)
        ensures
            made.timer == fresh(MENU_REFRESH_PERIOD, TimerMode::Repeating),
    {
        FixMenuTimer { timer: Timer::new(MENU_REFRESH_PERIOD, TimerMode::Repeating) }
    }
}

} // verus!
