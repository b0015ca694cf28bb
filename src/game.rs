use vstd::prelude::*;

use crate::hud::{Hud, Message};
use crate::motion::{within_limits, Player, Point, MAX_COORD};
use crate::spawn::{draw_spawn, draws_in_range, SpawnDraws};

verus! {

/// Most mobs alive at once; the spawner skips a tick while this many are out.
pub const MAX_ACTIVE_MOBS: u64 = 64;

/// The game's top-level state.
#[derive(Clone, Copy, Debug, PartialEq, Eq, Structural)]
pub enum Phase {
    Idle,
    Playing,
    GameOver,
}

/// The game: its phase, score, player, display and timers.
#[derive(Clone, Copy, Debug, PartialEq, Eq, Structural)]
pub struct Game {
    pub phase: Phase,
    pub score: u64,
    pub player: Player,
    pub hud: Hud,
    pub start_position: Point,
    /// The one-shot delay between a new game and its first mobs.
    pub start_timer_armed: bool,
    pub score_timer_running: bool,
    pub mob_timer_running: bool,
    pub active_mobs: u64,
    /// A hit waiting to be handled once the current step is over.
    pub hit_pending: bool,
}

impl Game {
    pub open spec fn wf(&self) -> bool {
        &&& self.player.wf()
        &&& within_limits(self.start_position)
        &&& self.active_mobs <= MAX_ACTIVE_MOBS
    }

    pub open spec fn after_new_game(self) -> Game {
        Game {
            phase: Phase::Playing,
            score: 0,
            player: self.player.started(self.start_position),
            hud: Hud { score: 0, ..self.hud }.shown(Message::GetReady),
            start_timer_armed: true,
            ..self
        }
    }

    pub open spec fn after_start_delay(self) -> Game {
        if self.phase == Phase::Playing {
            Game { start_timer_armed: false, score_timer_running: true, mob_timer_running: true, ..self }
        } else {
            self
        }
    }

    pub open spec fn after_score_tick(self) -> Game {
        if self.phase == Phase::Playing && self.score < u64::MAX {
            Game {
                score: (self.score + 1) as u64,
                hud: Hud { score: (self.score + 1) as u64, ..self.hud },
                ..self
            }
        } else {
            self
        }
    }

    pub open spec fn after_game_over(self) -> Game {
        if self.phase == Phase::Playing {
            Game {
                phase: Phase::GameOver,
                player: Player { visible: false, monitoring: false, ..self.player },
                hud: self.hud.shown_game_over(),
                score_timer_running: false,
                mob_timer_running: false,
                ..self
            }
        } else {
            self
        }
    }

    pub open spec fn spawn_allowed(self) -> bool {
        self.phase == Phase::Playing && self.mob_timer_running && self.active_mobs < MAX_ACTIVE_MOBS
    }

    /// An idle game on a screen of size `bounds`, whose player starts each
    /// game at `start_position`.
    pub fn new(bounds: Point, start_position: Point) -> (r: Game)
        requires
            0 <= bounds.x <= MAX_COORD,
            0 <= bounds.y <= MAX_COORD,
            within_limits(start_position),
        ensures
            r.wf(),
            r.phase == Phase::Idle,
            r.score == 0,
            r.player.bounds == bounds,
            !r.player.visible,
            !r.player.monitoring,
            r.hud == Hud::new_spec(),
            r.start_position == start_position,
            !r.start_timer_armed,
            !r.score_timer_running,
            !r.mob_timer_running,
            r.active_mobs == 0,
            !r.hit_pending,
    {
        Game {
            phase: Phase::Idle,
            score: 0,
            player: Player::new(bounds),
            hud: Hud::new(),
            start_position,
            start_timer_armed: false,
            score_timer_running: false,
            mob_timer_running: false,
            active_mobs: 0,
            hit_pending: false,
        }
    }

    /// A new game, from any phase: the score is reset, the player placed
    /// and armed, "Get Ready" shown and the start delay armed.
    pub fn new_game(&mut self)
        requires
            old(self).wf(),
        ensures
            final(self).wf(),
            *final(self) == old(self).after_new_game(),
    {
        self.score = 0;
        self.player.start(self.start_position);
        self.start_timer_armed = true;
        self.hud.update_score(0);
        self.hud.show_message(Message::GetReady);
        self.phase = Phase::Playing;
    }

    /// The start delay ran out: while playing, the score and mob timers start.
    pub fn start_timer_elapsed(&mut self)
        ensures
            *final(self) == old(self).after_start_delay(),
    {
        if self.phase == Phase::Playing {
            self.start_timer_armed = false;
            self.score_timer_running = true;
            self.mob_timer_running = true;
        }
    }

    /// The score timer ticked: while playing, the score goes up by one.
    pub fn score_timer_elapsed(&mut self)
        ensures
            *final(self) == old(self).after_score_tick(),
    {
        if self.phase == Phase::Playing && self.score < u64::MAX {
            self.score = self.score + 1;
            self.hud.update_score(self.score);
        }
    }

    /// The game ends: while playing, the player is hidden and disarmed, the
    /// timers stop and "Game Over" is shown.
    pub fn game_over(&mut self)
        ensures
            *final(self) == old(self).after_game_over(),
    {
        if self.phase == Phase::Playing {
            self.player.visible = false;
            self.player.monitoring = false;
            self.score_timer_running = false;
            self.mob_timer_running = false;
            self.phase = Phase::GameOver;
            self.hud.show_game_over();
        }
    }

    /// A mob touched the player. While collisions are armed the player is
    /// hidden at once; the hit itself waits for `flush_deferred`.
    pub fn player_area_entered(&mut self)
        ensures
            old(self).player.monitoring ==> *final(self) == (Game {
                player: Player { visible: false, ..old(self).player },
                hit_pending: true,
                ..*old(self)
            }),
            !old(self).player.monitoring ==> *final(self) == *old(self),
    {
        if self.player.monitoring {
            self.player.visible = false;
            self.hit_pending = true;
        }
    }

    /// The start button was pressed; the new game waits for `flush_deferred`.
    pub fn start_button_pressed(&mut self)
        ensures
            *final(self) == (Game {
                hud: Hud { start_visible: false, start_requested: true, ..old(self).hud },
                ..*old(self)
            }),
    {
        self.hud.start_pressed();
    }

    /// Runs what was deferred during the last step: first a pending hit
    /// (collisions are disarmed and the game ends), then a start request.
    pub fn flush_deferred(&mut self)
        requires
            old(self).wf(),
        ensures
            final(self).wf(),
            ({
                let a = if old(self).hit_pending {
                    Game {
                        hit_pending: false,
                        player: Player { monitoring: false, ..old(self).player },
                        ..*old(self)
                    }.after_game_over()
                } else {
                    *old(self)
                };
                let b = if a.hud.start_requested {
                    Game { hud: Hud { start_requested: false, ..a.hud }, ..a }.after_new_game()
                } else {
                    a
                };
                *final(self) == b
            }),
    {
        if self.hit_pending {
            self.hit_pending = false;
            self.player.monitoring = false;
            self.game_over();
        }
        if self.hud.start_requested {
            self.hud.start_requested = false;
            self.new_game();
        }
    }

    /// The message timer ran out: the display resets its message.
    pub fn message_timer_elapsed(&mut self)
        ensures
            *final(self) == (Game { hud: old(self).hud.after_reset(), ..*old(self) }),
    {
        self.hud.reset_message();
    }

    /// The mob timer ticked. While playing with the mob timer running and
    /// fewer than the most mobs out, the draws for a new mob on a path of
    /// length `path_length` are returned and the mob is counted.
    pub fn mob_timer_elapsed(&mut self, path_length: u32) -> (r: Option<SpawnDraws>)
        requires
            old(self).wf(),
        ensures
            final(self).wf(),
            old(self).spawn_allowed() ==> {
                &&& r is Some
                &&& draws_in_range(r->0, path_length)
                &&& *final(self) == (Game { active_mobs: (old(self).active_mobs + 1) as u64, ..*old(self) })
            },
            !old(self).spawn_allowed() ==> r is None && *final(self) == *old(self),
    {
        if self.phase == Phase::Playing && self.mob_timer_running && self.active_mobs < MAX_ACTIVE_MOBS {
            self.active_mobs = self.active_mobs + 1;
            Some(draw_spawn(path_length))
        } else {
            None
        }
    }

    /// A mob left the visible area and is gone.
    pub fn mob_left_area(&mut self)
        ensures
            old(self).active_mobs > 0 ==> *final(self) == (Game {
                active_mobs: (old(self).active_mobs - 1) as u64,
                ..*old(self)
            }),
            old(self).active_mobs == 0 ==> *final(self) == *old(self),
    {
        if self.active_mobs > 0 {
            self.active_mobs = self.active_mobs - 1;
        }
    }
}

/// The game after `n` score ticks.
pub open spec fn after_score_ticks(g: Game, n: nat) -> Game
    decreases n,
{
    if n == 0 {
        g
    } else {
        after_score_ticks(g, (n - 1) as nat).after_score_tick()
    }
}

/// After the player is hit, any number of score ticks leave the game, and
/// so the score, as it was.
pub proof fn lemma_no_score_after_hit(g: Game, n: nat)
    requires
        g.phase == Phase::Playing,
    ensures
        after_score_ticks(g.after_game_over(), n) == g.after_game_over(),
        after_score_ticks(g.after_game_over(), n).score == g.score,
    decreases n,
{
    if n > 0 {
        lemma_no_score_after_hit(g, (n - 1) as nat);
    }
}

/// A score tick adds exactly one to the score while playing, and changes
/// nothing in any other phase; once the game is over, score ticks leave the
/// score as it was.
pub proof fn lemma_score_tick(g: Game)
    ensures
        g.phase == Phase::Playing && g.score < u64::MAX ==> g.after_score_tick().score == g.score + 1,
        g.phase != Phase::Playing ==> g.after_score_tick() == g,
        g.phase == Phase::Playing ==> {
            &&& g.after_game_over().phase == Phase::GameOver
            &&& g.after_game_over().after_score_tick() == g.after_game_over()
            &&& g.after_game_over().after_score_tick().score == g.score
        },
{
}

/// A new game, from any phase and any score, starts playing at score zero.
pub proof fn lemma_new_game_resets(g: Game)
    ensures
        g.after_new_game().phase == Phase::Playing,
        g.after_new_game().score == 0,
        g.after_new_game().hud.score == 0,
{
}

} // verus!
