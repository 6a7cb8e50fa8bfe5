use vstd::prelude::*;

use crate::config::{FPS_WINDOW_MS, INITIAL_SNAKE_LENGTH, MOVE_INTERVAL_MS, SCREEN_HEIGHT, SCREEN_WIDTH};
use crate::game::{advanced, started, turned, valid_setup, SnakeGame};
use crate::geometry::Direction;

verus! {

/// A request of the player, told apart from all other input.
#[derive(Clone, Copy, Debug, PartialEq, Eq, Structural)]
pub enum Command {
    /// Leave the game.
    Quit,
    /// Throw the current game away and start a fresh one.
    NewGame,
    /// Show or hide the frame-rate display.
    ToggleFps,
    /// Steer the snake.
    Turn(Direction),
}

/// The state of the game loop: the game itself, when it last moved, and the
/// frame counting behind the frame-rate display.
pub struct Driver {
    pub game: SnakeGame,
    /// Clock value of the last movement tick.
    pub move_time: u32,
    /// Clock value at which the current frame-counting window opened.
    pub fps_time: u32,
    /// Frames counted in the current window.
    pub frames: u32,
    /// Frames counted in the last complete window, for display.
    pub fps: u32,
    pub show_fps: bool,
    /// Cleared once the player asks to quit.
    pub running: bool,
}

/// Milliseconds from `from` to `to`; a clock that went back counts as none.
pub open spec fn elapsed(from: u32, to: u32) -> int {
    if to >= from {
        to - from
    } else {
        0
    }
}

fn elapsed_ms(from: u32, to: u32) -> (r: u32)
    ensures
        r == elapsed(from, to),
{
    if to >= from {
        to - from
    } else {
        0
    }
}

proof fn lemma_screen_setup()
    ensures
        valid_setup(SCREEN_WIDTH, SCREEN_HEIGHT, INITIAL_SNAKE_LENGTH),
{
    assert(SCREEN_WIDTH / 15 == 53);
    assert(SCREEN_HEIGHT / 15 == 40);
}

impl Driver {
    pub open spec fn wf(&self) -> bool {
        &&& self.game.wf()
        &&& self.game.width == SCREEN_WIDTH
        &&& self.game.height == SCREEN_HEIGHT
    }

    /// A loop that starts at clock value `now` with a fresh game on the screen.
    pub fn new(now: u32) -> (r: Driver)
        ensures
            r.wf(),
            started(r.game, SCREEN_WIDTH, SCREEN_HEIGHT, INITIAL_SNAKE_LENGTH, now),
            r.move_time == now,
            r.fps_time == now,
            r.frames == 0,
            r.fps == 0,
            !r.show_fps,
            r.running,
    {
        proof {
            lemma_screen_setup();
        }
        Driver {
            game: SnakeGame::new(SCREEN_WIDTH, SCREEN_HEIGHT, INITIAL_SNAKE_LENGTH, now),
            move_time: now,
            fps_time: now,
            frames: 0,
            fps: 0,
            show_fps: false,
            running: true,
        }
    }

    /// The clock-driven part of one pass of the loop at clock value `now`.
    /// Once `MOVE_INTERVAL_MS` have passed since the last move the game takes
    /// a movement tick. Once `FPS_WINDOW_MS` have passed since the counting
    /// window opened, the frames counted in it are published and a new window
    /// opens. Either way this pass counts as a frame.
    pub fn tick(&mut self, now: u32)
        requires
            old(self).wf(),
        ensures
            final(self).wf(),
            if elapsed(old(self).move_time, now) >= MOVE_INTERVAL_MS {
                &&& advanced(old(self).game, final(self).game, now)
                &&& final(self).move_time == now
            } else {
                &&& final(self).game == old(self).game
                &&& final(self).move_time == old(self).move_time
            },
            if elapsed(old(self).fps_time, now) >= FPS_WINDOW_MS {
                &&& final(self).fps == old(self).frames
                &&& final(self).fps_time == now
                &&& final(self).frames == 1
            } else {
                &&& final(self).fps == old(self).fps
                &&& final(self).fps_time == old(self).fps_time
                &&& final(self).frames == old(self).frames.saturating_add(1)
            },
            final(self).show_fps == old(self).show_fps,
            final(self).running == old(self).running,
    {
        if elapsed_ms(self.move_time, now) >= MOVE_INTERVAL_MS {
            self.game.move_snake(now);
            self.move_time = now;
        }
        if elapsed_ms(self.fps_time, now) >= FPS_WINDOW_MS {
            self.fps = self.frames;
            self.fps_time = now;
            self.frames = 0;
        }
        self.frames = self.frames.saturating_add(1);
    }

    /// Carries out a command of the player received at clock value `now`.
    pub fn handle(&mut self, command: Command, now: u32)
        requires
            old(self).wf(),
        ensures
            final(self).wf(),
            final(self).move_time == old(self).move_time,
            final(self).fps_time == old(self).fps_time,
            final(self).frames == old(self).frames,
            final(self).fps == old(self).fps,
            final(self).running == (old(self).running && command != Command::Quit),
            final(self).show_fps == (old(self).show_fps != (command == Command::ToggleFps)),
            match command {
                Command::NewGame => started(
                    final(self).game,
                    SCREEN_WIDTH,
                    SCREEN_HEIGHT,
                    INITIAL_SNAKE_LENGTH,
                    now,
                ),
                Command::Turn(d) => turned(old(self).game, final(self).game, d),
                _ => final(self).game == old(self).game,
            },
    {
        match command {
            Command::Quit => {
                self.running = false;
            },
            Command::NewGame => {
                proof {
                    lemma_screen_setup();
                }
                self.game.reset(SCREEN_WIDTH, SCREEN_HEIGHT, INITIAL_SNAKE_LENGTH, now);
            },
            Command::ToggleFps => {
                self.show_fps = !self.show_fps;
            },
            Command::Turn(d) => {
                self.game.change_direction(d);
            },
        }
    }
}

} // verus!
