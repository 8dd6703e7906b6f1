use vstd::prelude::*;
use crate::resources::GameState;

verus! {

/// The systems that make up a frame.
#[derive(Clone, Copy, Debug, PartialEq, Eq, Structural)]
pub enum System {
    GameStartEvent,
    GameOverEventReceiver,
    TickEnemyTimer,
    SpawnEnemies,
    SpawnStars,
    SpawnCoffee,
    SpawnInvincibility,
    PlayerMovement,
    EnemyMovement,
    WindowBorderMovement,
    ConfineEnemyToWindow,
    DetectCollision,
    CollectCoffee,
    CollectStars,
    CollectInvincibility,
    UpdatePlayerColors,
    PauseGame,
    InteractWithPlayButton,
    InteractWithQuitButton,
    InteractWithSoundButton,
    FixMenuFirstGame,
    MrProducer,
    FpsSystem,
}

/// Whether a system runs in a phase.
///
/// The event readers, the jingle and the frame counter always run. Whatever
/// moves, spawns or collides rests while the game is paused; the player, the
/// pickups and the growth of the enemy target rest in the menu too, where
/// only the enemies roam and the stars are kept up. The buttons answer
/// outside the game, the pause key outside the menu.
pub open spec fn runs_in(system: System, phase: GameState) -> bool {
    match system {
        System::GameStartEvent | System::GameOverEventReceiver | System::MrProducer
        | System::FpsSystem => true,
        System::SpawnEnemies | System::SpawnStars | System::EnemyMovement
        | System::ConfineEnemyToWindow | System::CollectStars => phase != GameState::Paused,
        System::TickEnemyTimer | System::SpawnCoffee | System::SpawnInvincibility
        | System::PlayerMovement | System::WindowBorderMovement | System::DetectCollision
        | System::CollectCoffee | System::CollectInvincibility | System::UpdatePlayerColors => phase
            == GameState::Game,
        System::PauseGame => phase != GameState::Menu,
        System::InteractWithPlayButton | System::InteractWithQuitButton
        | System::InteractWithSoundButton => phase != GameState::Game,
        System::FixMenuFirstGame => phase == GameState::Menu,
    }
}

/// Whether a system runs in a phase.
pub fn should_run(system: System, phase: GameState) -> (runs: bool)
    ensures
        runs == runs_in(system, phase),
{
    let in_menu: bool = match phase {
        GameState::Menu => true,
        _ => false,
    };
    let in_game: bool = match phase {
        GameState::Game => true,
        _ => false,
    };
    let paused: bool = match phase {
        GameState::Paused => true,
        _ => false,
    };
    match system {
        System::GameStartEvent => true,
        System::GameOverEventReceiver => true,
        System::MrProducer => true,
        System::FpsSystem => true,
        System::SpawnEnemies => !paused,
        System::SpawnStars => !paused,
        System::EnemyMovement => !paused,
        System::ConfineEnemyToWindow => !paused,
        System::CollectStars => !paused,
        System::TickEnemyTimer => in_game,
        System::SpawnCoffee => in_game,
        System::SpawnInvincibility => in_game,
        System::PlayerMovement => in_game,
        System::WindowBorderMovement => in_game,
        System::DetectCollision => in_game,
        System::CollectCoffee => in_game,
        System::CollectInvincibility => in_game,
        System::UpdatePlayerColors => in_game,
        System::PauseGame => !in_menu,
        System::InteractWithPlayButton => !in_game,
        System::InteractWithQuitButton => !in_game,
        System::InteractWithSoundButton => !in_game,
        System::FixMenuFirstGame => in_menu,
    }
}

/// While the game is paused nothing that moves, spawns or collides runs.
pub proof fn lemma_paused_world_rests(system: System)
    ensures
        runs_in(system, GameState::Paused) ==> (system == System::GameStartEvent || system
            == System::GameOverEventReceiver || system == System::MrProducer || system
            == System::FpsSystem || system == System::PauseGame || system
            == System::InteractWithPlayButton || system == System::InteractWithQuitButton
            || system == System::InteractWithSoundButton),
{
}

/// The stages of a frame, in the order in which they run. Within a frame an
/// event is read only by stages that come after the one that raised it, and
/// at the end of the frame the events are forgotten.
#[derive(Clone, Copy, Debug, PartialEq, Eq, Structural)]
pub enum Stage {
    /// Keys and buttons are read; a press may raise `GameStart`.
    Input,
    /// `GameStart` is applied.
    EventIngestion,
    /// The timers of the game advance.
    TimerBank,
    /// Missing entities are created.
    Spawner,
    /// Player and enemies move.
    Movement,
    /// They are held inside the window.
    Bounds,
    /// The player meets enemies, stars and pickups; `GameOver` may be raised.
    Collision,
    /// `GameOver` is applied; colours follow the state.
    StateMutation,
    /// What does not touch the field: the menu, the jingle, the frame counter.
    Ambient,
}

/// The place of a stage in the frame, counted from zero.
pub open spec fn stage_rank(stage: Stage) -> nat {
    match stage {
        Stage::Input => 0,
        Stage::EventIngestion => 1,
        Stage::TimerBank => 2,
        Stage::Spawner => 3,
        Stage::Movement => 4,
        Stage::Bounds => 5,
        Stage::Collision => 6,
        Stage::StateMutation => 7,
        Stage::Ambient => 8,
    }
}

/// The stage in which a system runs.
pub open spec fn stage_of(system: System) -> Stage {
    match system {
        System::PauseGame | System::InteractWithPlayButton | System::InteractWithQuitButton
        | System::InteractWithSoundButton => Stage::Input,
        System::GameStartEvent => Stage::EventIngestion,
        System::TickEnemyTimer => Stage::TimerBank,
        System::SpawnEnemies | System::SpawnStars | System::SpawnCoffee
        | System::SpawnInvincibility => Stage::Spawner,
        System::PlayerMovement | System::EnemyMovement => Stage::Movement,
        System::WindowBorderMovement | System::ConfineEnemyToWindow => Stage::Bounds,
        System::DetectCollision | System::CollectCoffee | System::CollectStars
        | System::CollectInvincibility => Stage::Collision,
        System::GameOverEventReceiver | System::UpdatePlayerColors => Stage::StateMutation,
        System::FixMenuFirstGame | System::MrProducer | System::FpsSystem => Stage::Ambient,
    }
}

/// The place of a stage in the frame, counted from zero.
pub fn rank_of(stage: Stage) -> (rank: u8)
    ensures
        rank == stage_rank(stage),
{
    match stage {
        Stage::Input => 0,
        Stage::EventIngestion => 1,
        Stage::TimerBank => 2,
        Stage::Spawner => 3,
        Stage::Movement => 4,
        Stage::Bounds => 5,
        Stage::Collision => 6,
        Stage::StateMutation => 7,
        Stage::Ambient => 8,
    }
}

/// The stage in which a system runs.
pub fn stage_for(system: System) -> (stage: Stage)
    ensures
        stage == stage_of(system),
{
    match system {
        System::PauseGame => Stage::Input,
        System::InteractWithPlayButton => Stage::Input,
        System::InteractWithQuitButton => Stage::Input,
        System::InteractWithSoundButton => Stage::Input,
        System::GameStartEvent => Stage::EventIngestion,
        System::TickEnemyTimer => Stage::TimerBank,
        System::SpawnEnemies => Stage::Spawner,
        System::SpawnStars => Stage::Spawner,
        System::SpawnCoffee => Stage::Spawner,
        System::SpawnInvincibility => Stage::Spawner,
        System::PlayerMovement => Stage::Movement,
        System::EnemyMovement => Stage::Movement,
        System::WindowBorderMovement => Stage::Bounds,
        System::ConfineEnemyToWindow => Stage::Bounds,
        System::DetectCollision => Stage::Collision,
        System::CollectCoffee => Stage::Collision,
        System::CollectStars => Stage::Collision,
        System::CollectInvincibility => Stage::Collision,
        System::GameOverEventReceiver => Stage::StateMutation,
        System::UpdatePlayerColors => Stage::StateMutation,
        System::FixMenuFirstGame => Stage::Ambient,
        System::MrProducer => Stage::Ambient,
        System::FpsSystem => Stage::Ambient,
    }
}

/// The number of stages in a frame.
pub const STAGES: u8 = 9;

/// Every stage has a place of its own among the `STAGES` places of a frame.
pub proof fn lemma_stage_ranks_differ(a: Stage, b: Stage)
    ensures
        stage_rank(a) < STAGES,
        stage_rank(a) == stage_rank(b) ==> a == b,
{
}

/// Every event is raised before the systems that read it run: the play
/// button comes before the start of a game, which the enemy spawner sees in
/// the same frame; the collision with an enemy comes before the end of a game.
/// Entities move before they are held inside the window, and are held inside
/// before they collide.
pub proof fn lemma_stages_in_order()
    ensures
        stage_rank(stage_of(System::InteractWithPlayButton)) < stage_rank(
            stage_of(System::GameStartEvent),
        ),
        stage_rank(stage_of(System::GameStartEvent)) < stage_rank(stage_of(System::SpawnEnemies)),
        stage_rank(stage_of(System::TickEnemyTimer)) < stage_rank(stage_of(System::SpawnEnemies)),
        stage_rank(stage_of(System::DetectCollision)) < stage_rank(
            stage_of(System::GameOverEventReceiver),
        ),
        stage_rank(stage_of(System::PlayerMovement)) < stage_rank(
            stage_of(System::WindowBorderMovement),
        ),
        stage_rank(stage_of(System::EnemyMovement)) < stage_rank(
            stage_of(System::ConfineEnemyToWindow),
        ),
        stage_rank(stage_of(System::ConfineEnemyToWindow)) < stage_rank(
            stage_of(System::DetectCollision),
        ),
{
}

} // verus!
