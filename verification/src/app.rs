//! The application state machine, run by the consumer thread: it owns the
//! grid, the `running` flag, the displayed tick interval and the cached
//! viewport, and applies exactly one channel event per loop iteration.
//!
//! The whole transition table is the spec function [`transition_ok`]:
//! Enter toggles run/pause; `q` quits; a click edits one cell, but only
//! while paused and only inside the viewport; a tick steps the grid only
//! while running; a rate notification updates the displayed interval; a
//! resize rebuilds an all-dead grid of the new size and forces a pause.

use vstd::prelude::*;

use crate::clock;
use crate::events::{ClickType, GameEvent, Key};
use crate::geometry::{rect_wf, Point, Rect};
use crate::grid::{next_cell, Grid};

verus! {

/// Application state, exclusively owned by the consumer thread.
pub struct App {
    /// The cell matrix; always sized to the cached viewport.
    pub grid: Grid,
    /// Whether ticks advance the simulation; starts paused.
    pub running: bool,
    /// The tick interval as last reported by the producer, in milliseconds;
    /// kept only for display.
    pub tick_interval_ms: u64,
    /// The grid's drawing area (inside its frame) as of the last applied
    /// resize; clicks are hit-tested and translated against it.
    pub viewport: Rect,
    /// Screen position of the last accepted click; diagnostic only.
    pub last_click: (usize, usize),
}

impl App {
    /// The grid always matches the cached viewport's size, and the viewport
    /// fits in screen coordinates.
    pub open spec fn wf(&self) -> bool {
        &&& self.grid.wf()
        &&& self.grid.width == self.viewport.width
        &&& self.grid.height == self.viewport.height
        &&& rect_wf(self.viewport)
    }

    /// Fresh state from the first measured drawing area: an all-dead grid
    /// filling the area's interior, paused, at the default tick interval.
    pub fn new(measured: Rect) -> (app: App)
        requires
            rect_wf(measured),
        ensures
            app.wf(),
            !app.running,
            app.tick_interval_ms == clock::DEFAULT_TICK_MS,
            app.viewport == measured.spec_inner(),
            app.grid.all_dead(),
            app.last_click == (0usize, 0usize),
    {
        let viewport = measured.inner();
        App {
            grid: Grid::new(viewport.width, viewport.height),
            running: false,
            tick_interval_ms: clock::DEFAULT_TICK_MS,
            viewport,
            last_click: (0, 0),
        }
    }

    /// Apply a resize: rebuild an all-dead grid for the measured area's
    /// interior (resizing is destructive, not a reflow) and drop back to
    /// paused; the tick interval and diagnostics survive.
    pub fn resize(&mut self, measured: Rect)
        requires
            old(self).wf(),
            rect_wf(measured),
        ensures
            final(self).wf(),
            final(self).viewport == measured.spec_inner(),
            !final(self).running,
            final(self).grid.all_dead(),
            final(self).tick_interval_ms == old(self).tick_interval_ms,
            final(self).last_click == old(self).last_click,
    {
        let viewport = measured.inner();
        self.grid = Grid::new(viewport.width, viewport.height);
        self.viewport = viewport;
        self.running = false;
    }

    /// Whether the renderer-reported drawing area no longer matches the
    /// cached viewport, in which case the render pass must send a resize
    /// event through the channel rather than mutate anything itself.
    pub fn needs_resize(&self, reported: Rect) -> (r: bool)
        requires
            rect_wf(reported),
        ensures
            r == (reported.spec_inner() != self.viewport),
    {
        let inner = reported.inner();
        inner != self.viewport
    }
}

/// The consumer's transition table: what one applied event does to the
/// application state, and whether it ends the loop.
pub open spec fn transition_ok(pre: App, ev: GameEvent, post: App, exit: bool) -> bool {
    match ev {
        GameEvent::KeyInput(k) => {
            &&& post.grid == pre.grid
            &&& post.tick_interval_ms == pre.tick_interval_ms
            &&& post.viewport == pre.viewport
            &&& post.last_click == pre.last_click
            &&& post.running == (if k == Key::Enter {
                !pre.running
            } else {
                pre.running
            })
            &&& exit == (k == Key::Char('q'))
        },
        GameEvent::Click(button, position) => {
            &&& post.running == pre.running
            &&& post.tick_interval_ms == pre.tick_interval_ms
            &&& post.viewport == pre.viewport
            &&& !exit
            &&& if !pre.running && position.spec_in_rect(pre.viewport) {
                let row = position.y - pre.viewport.y;
                let col = position.x - pre.viewport.x;
                &&& post.grid.width == pre.grid.width
                &&& post.grid.height == pre.grid.height
                &&& post.grid@ == pre.grid@.update(
                    row,
                    pre.grid@[row].update(col, button == ClickType::Left),
                )
                &&& post.last_click == (position.x as usize, position.y as usize)
            } else {
                &&& post.grid == pre.grid
                &&& post.last_click == pre.last_click
            }
        },
        GameEvent::Tick => {
            &&& post.running == pre.running
            &&& post.tick_interval_ms == pre.tick_interval_ms
            &&& post.viewport == pre.viewport
            &&& post.last_click == pre.last_click
            &&& !exit
            &&& if pre.running {
                &&& post.grid.width == pre.grid.width
                &&& post.grid.height == pre.grid.height
                &&& forall|r: int, c: int|
                    0 <= r < pre.grid.height && 0 <= c < pre.grid.width
                        ==> #[trigger] post.grid@[r][c] == next_cell(
                        pre.grid@,
                        pre.grid.height as int,
                        pre.grid.width as int,
                        r,
                        c,
                    )
            } else {
                post.grid == pre.grid
            }
        },
        GameEvent::TickSet(ms) => {
            &&& post.grid == pre.grid
            &&& post.running == pre.running
            &&& post.tick_interval_ms == ms
            &&& post.viewport == pre.viewport
            &&& post.last_click == pre.last_click
            &&& !exit
        },
        GameEvent::Resize(measured) => {
            &&& post.viewport == measured.spec_inner()
            &&& !post.running
            &&& post.grid.width == post.viewport.width
            &&& post.grid.height == post.viewport.height
            &&& post.grid.all_dead()
            &&& post.tick_interval_ms == pre.tick_interval_ms
            &&& post.last_click == pre.last_click
            &&& !exit
        },
    }
}

proof fn lemma_paused_ticks_prefix(states: Seq<App>, exits: Seq<bool>, i: int)
    requires
        states.len() >= 1,
        !states[0].running,
        exits.len() == states.len() - 1,
        forall|j: int|
            0 <= j < states.len() - 1 ==> transition_ok(
                states[j],
                GameEvent::Tick,
                states[j + 1],
                exits[j],
            ),
        0 <= i < states.len(),
    ensures
        states[i].grid == states[0].grid,
        !states[i].running,
    decreases i,
{
    if i > 0 {
        lemma_paused_ticks_prefix(states, exits, i - 1);
        assert(transition_ok(states[i - 1], GameEvent::Tick, states[i], exits[i - 1]));
    }
}

/// Law: while paused, time may pass but the grid is frozen. Along any chain
/// of states linked only by Tick transitions and starting paused, every
/// state still holds the grid the chain started with and is still paused.
pub proof fn lemma_paused_ticks_change_nothing(states: Seq<App>, exits: Seq<bool>)
    requires
        states.len() >= 1,
        !states[0].running,
        exits.len() == states.len() - 1,
        forall|j: int|
            0 <= j < states.len() - 1 ==> transition_ok(
                states[j],
                GameEvent::Tick,
                states[j + 1],
                exits[j],
            ),
    ensures
        forall|i: int|
            #![trigger states[i]]
            0 <= i < states.len() ==> states[i].grid == states[0].grid && !states[i].running,
{
    assert forall|i: int|
        #![trigger states[i]]
        0 <= i < states.len() implies states[i].grid == states[0].grid && !states[i].running by {
        lemma_paused_ticks_prefix(states, exits, i);
    }
}

impl App {
    /// Apply one event from the channel, exactly as the transition table
    /// says; returns whether the consumer loop must end after this
    /// iteration.
    pub fn handle_event(&mut self, ev: GameEvent) -> (exit: bool)
        requires
            old(self).wf(),
            ev matches GameEvent::Resize(measured) ==> rect_wf(measured),
        ensures
            final(self).wf(),
            transition_ok(*old(self), ev, *final(self), exit),
    {
        let mut exit = false;
        match ev {
            GameEvent::KeyInput(k) => {
                match k {
                    Key::Enter => {
                        self.running = !self.running;
                    },
                    Key::Char(ch) => {
                        if ch == 'q' {
                            exit = true;
                        }
                    },
                    Key::Other => {},
                }
            },
            GameEvent::Click(button, position) => {
                if !self.running && position.in_rect(self.viewport) {
                    let col = (position.x - self.viewport.x) as usize;
                    let row = (position.y - self.viewport.y) as usize;
                    self.last_click = (position.x as usize, position.y as usize);
                    let alive = button == ClickType::Left;
                    let _ = self.grid.set_cell(row, col, alive);
                }
            },
            GameEvent::Tick => {
                if self.running {
                    self.grid.step();
                }
            },
            GameEvent::TickSet(ms) => {
                self.tick_interval_ms = ms;
            },
            GameEvent::Resize(measured) => {
                self.resize(measured);
            },
        }
        exit
    }
}

} // verus!
