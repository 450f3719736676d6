//! The viewport: where the screen looks into the field, and how navigation
//! commands move it.
use vstd::prelude::*;

use crate::cell::{Point, RenderMode};

verus! {

/// The largest magnitude of a coordinate, a step or a threshold in a viewport.
pub const LIMIT: i64 = 1_000_000_000_000;

/// World units per cell when a viewport starts: 0.1.
pub const START_STEP: i64 = 100_000;

/// The threshold when a viewport starts: 0.25.
pub const START_THRESHOLD: i64 = 250_000;

/// How much one zoom command changes the step: 0.002.
pub const ZOOM_STEP: i64 = 2_000;

/// Zooming in only happens while the step is above this: 0.01.
pub const ZOOM_FLOOR: i64 = 10_000;

/// How much one threshold command changes the threshold: 0.005.
pub const THRESHOLD_STEP: i64 = 5_000;

/// A discrete input to the viewport.
#[derive(Clone, Copy, Debug, PartialEq, Eq, Structural)]
pub enum Command {
    PanUp,
    PanDown,
    PanLeft,
    PanRight,
    ZoomIn,
    ZoomOut,
    ThresholdUp,
    ThresholdDown,
    FocusUp,
    FocusDown,
    FocusLeft,
    FocusRight,
    ToggleMode,
    Quit,
    Nothing,
}

/// The state that navigation changes and every frame reads. Coordinates,
/// the step and the threshold are fixed-point, with `ONE` for 1.0.
#[derive(Clone, Copy, Debug, PartialEq, Eq, Structural)]
pub struct Viewport {
    /// The world point at the middle of the screen.
    pub center: Point,
    /// World units per cell.
    pub step: i64,
    /// The level of the contour drawn.
    pub threshold: i64,
    /// Which glyph table cells are drawn from.
    pub mode: RenderMode,
    /// A secondary focal point, for a contributor that shapes the field around it.
    pub focus: Point,
    /// False once a quit command has come; the viewport then no longer changes.
    pub running: bool,
}

/// A quantity that a viewport can hold.
pub open spec fn bounded(v: int) -> bool {
    -LIMIT <= v <= LIMIT
}

/// The point `p` moved by `(dx, dy)`, or `p` itself where the result would
/// leave the bounded plane.
pub open spec fn moved(p: Point, dx: int, dy: int) -> Point {
    if bounded(p.x + dx) && bounded(p.y + dy) {
        Point { x: (p.x + dx) as i64, y: (p.y + dy) as i64 }
    } else {
        p
    }
}

impl Viewport {
    /// Every quantity is bounded and the step is positive.
    pub open spec fn wf(&self) -> bool {
        &&& bounded(self.center.x as int)
        &&& bounded(self.center.y as int)
        &&& bounded(self.focus.x as int)
        &&& bounded(self.focus.y as int)
        &&& 0 < self.step <= LIMIT
        &&& bounded(self.threshold as int)
    }

    /// The state after `cmd`. Moves go by one step; a change that would leave
    /// the bounds is dropped; once stopped, nothing changes.
    pub open spec fn next(self, cmd: Command) -> Viewport {
        let s = self.step as int;
        if !self.running {
            self
        } else {
            match cmd {
                Command::PanUp => Viewport { center: moved(self.center, 0, -s), ..self },
                Command::PanDown => Viewport { center: moved(self.center, 0, s), ..self },
                Command::PanLeft => Viewport { center: moved(self.center, -s, 0), ..self },
                Command::PanRight => Viewport { center: moved(self.center, s, 0), ..self },
                Command::ZoomIn => if self.step > ZOOM_FLOOR {
                    Viewport { step: (self.step - ZOOM_STEP) as i64, ..self }
                } else {
                    self
                },
                Command::ZoomOut => if self.step + ZOOM_STEP <= LIMIT {
                    Viewport { step: (self.step + ZOOM_STEP) as i64, ..self }
                } else {
                    self
                },
                Command::ThresholdUp => if bounded(self.threshold + THRESHOLD_STEP) {
                    Viewport { threshold: (self.threshold + THRESHOLD_STEP) as i64, ..self }
                } else {
                    self
                },
                Command::ThresholdDown => if bounded(self.threshold - THRESHOLD_STEP) {
                    Viewport { threshold: (self.threshold - THRESHOLD_STEP) as i64, ..self }
                } else {
                    self
                },
                Command::FocusUp => Viewport { focus: moved(self.focus, 0, -s), ..self },
                Command::FocusDown => Viewport { focus: moved(self.focus, 0, s), ..self },
                Command::FocusLeft => Viewport { focus: moved(self.focus, -s, 0), ..self },
                Command::FocusRight => Viewport { focus: moved(self.focus, s, 0), ..self },
                Command::ToggleMode => Viewport {
                    mode: match self.mode {
                        RenderMode::Ascii => RenderMode::Unicode,
                        RenderMode::Unicode => RenderMode::Ascii,
                    },
                    ..self
                },
                Command::Quit => Viewport { running: false, ..self },
                Command::Nothing => self,
            }
        }
    }

    /// The state after `cmd` has been applied `n` times.
    pub open spec fn repeat(self, cmd: Command, n: nat) -> Viewport
        decreases n,
    {
        if n == 0 {
            self
        } else {
            self.repeat(cmd, (n - 1) as nat).next(cmd)
        }
    }

    /// The world point of the top-left cell on a screen of `rows` by `cols`
    /// cells: half the screen's extent before the centre on each axis.
    pub open spec fn origin(self, rows: int, cols: int) -> Point {
        Point {
            x: (self.center.x - (cols * self.step) / 2) as i64,
            y: (self.center.y - (rows * self.step) / 2) as i64,
        }
    }

    /// A running viewport at the origin of the world, with the starting step
    /// and threshold, drawing in ASCII.
    pub fn new() -> (r: Viewport)
        ensures
            r.wf(),
            r.center == (Point { x: 0, y: 0 }),
            r.focus == (Point { x: 0, y: 0 }),
            r.step == START_STEP,
            r.threshold == START_THRESHOLD,
            r.mode == RenderMode::Ascii,
            r.running,
    {
        Viewport {
            center: Point { x: 0, y: 0 },
            step: START_STEP,
            threshold: START_THRESHOLD,
            mode: RenderMode::Ascii,
            focus: Point { x: 0, y: 0 },
            running: true,
        }
    }

    /// Applies one command.
    pub fn apply_command(&mut self, cmd: Command)
        requires
            old(self).wf(),
        ensures
            *final(self) == old(self).next(cmd),
            final(self).wf(),
    {
        if !self.running {
            return;
        }
        let s = self.step;
        match cmd {
            Command::PanUp => self.center = move_point(self.center, 0, -s),
            Command::PanDown => self.center = move_point(self.center, 0, s),
            Command::PanLeft => self.center = move_point(self.center, -s, 0),
            Command::PanRight => self.center = move_point(self.center, s, 0),
            Command::ZoomIn => {
                if self.step > ZOOM_FLOOR {
                    self.step = self.step - ZOOM_STEP;
                }
            },
            Command::ZoomOut => {
                if self.step <= LIMIT - ZOOM_STEP {
                    self.step = self.step + ZOOM_STEP;
                }
            },
            Command::ThresholdUp => {
                if self.threshold <= LIMIT - THRESHOLD_STEP {
                    self.threshold = self.threshold + THRESHOLD_STEP;
                }
            },
            Command::ThresholdDown => {
                if self.threshold >= THRESHOLD_STEP - LIMIT {
                    self.threshold = self.threshold - THRESHOLD_STEP;
                }
            },
            Command::FocusUp => self.focus = move_point(self.focus, 0, -s),
            Command::FocusDown => self.focus = move_point(self.focus, 0, s),
            Command::FocusLeft => self.focus = move_point(self.focus, -s, 0),
            Command::FocusRight => self.focus = move_point(self.focus, s, 0),
            Command::ToggleMode => {
                self.mode = match self.mode {
                    RenderMode::Ascii => RenderMode::Unicode,
                    RenderMode::Unicode => RenderMode::Ascii,
                };
            },
            Command::Quit => self.running = false,
            Command::Nothing => {},
        }
    }

    /// The world point of the top-left cell on a screen of `rows` by `cols` cells.
    pub fn world_origin(&self, rows: u16, cols: u16) -> (r: Point)
        requires
            self.wf(),
        ensures
            r == self.origin(rows as int, cols as int),
    {
        proof {
            lemma_extent_bounded(cols as int, self.step as int);
            lemma_extent_bounded(rows as int, self.step as int);
        }
        let ex = (cols as i64) * self.step / 2;
        let ey = (rows as i64) * self.step / 2;
        Point { x: self.center.x - ex, y: self.center.y - ey }
    }

    /// The world point at the centre of the cell in row `row` and column
    /// `col` of a screen of `rows` by `cols` cells: the top-left cell's
    /// point, moved one step per row and per column.
    pub fn cell_center(&self, rows: u16, cols: u16, row: u16, col: u16) -> (r: Point)
        requires
            self.wf(),
        ensures
            r.x == self.origin(rows as int, cols as int).x + col * self.step,
            r.y == self.origin(rows as int, cols as int).y + row * self.step,
            r.x - self.step / 2 >= i64::MIN,
            r.x + self.step / 2 <= i64::MAX,
            r.y - self.step / 2 >= i64::MIN,
            r.y + self.step / 2 <= i64::MAX,
    {
        proof {
            lemma_extent_bounded(cols as int, self.step as int);
            lemma_extent_bounded(rows as int, self.step as int);
            lemma_extent_bounded(col as int, self.step as int);
            lemma_extent_bounded(row as int, self.step as int);
        }
        let o = self.world_origin(rows, cols);
        Point { x: o.x + (col as i64) * self.step, y: o.y + (row as i64) * self.step }
    }
}

/// Quitting stops a viewport, no other command does, and a stopped viewport
/// stays exactly as it is whatever comes next.
pub proof fn lemma_quit_is_terminal(s: Viewport, cmd: Command)
    ensures
        !s.next(Command::Quit).running,
        s.running && cmd != Command::Quit ==> s.next(cmd).running,
        !s.running ==> s.next(cmd) == s,
{
}

/// Panning right `n` times moves the centre, and with it the top-left
/// cell's point on any screen, `n` steps to the right, and changes nothing
/// else, as long as the centre stays in bounds.
pub proof fn lemma_pan_right_repeated(s: Viewport, n: nat, rows: int, cols: int)
    requires
        s.wf(),
        s.running,
        s.center.x + n * s.step <= LIMIT,
        0 <= rows <= 0xffff,
        0 <= cols <= 0xffff,
    ensures
        s.repeat(Command::PanRight, n) == (Viewport {
            center: Point { x: (s.center.x + n * s.step) as i64, y: s.center.y },
            ..s
        }),
        s.repeat(Command::PanRight, n).origin(rows, cols).x == s.origin(rows, cols).x + n
            * s.step,
        s.repeat(Command::PanRight, n).origin(rows, cols).y == s.origin(rows, cols).y,
    decreases n,
{
    lemma_extent_bounded(cols, s.step as int);
    lemma_extent_bounded(rows, s.step as int);
    assert(0 <= n * s.step) by (nonlinear_arith)
        requires
            s.step > 0,
    ;
    if n > 0 {
        let m = (n - 1) as nat;
        assert(m * s.step + s.step == n * s.step) by (nonlinear_arith)
            requires
                m + 1 == n,
        ;
        assert(0 <= m * s.step) by (nonlinear_arith)
            requires
                s.step > 0,
        ;
        lemma_pan_right_repeated(s, m, rows, cols);
    }
}

/// Zooming in `n` times keeps the step positive and changes nothing else:
/// the step drops by `ZOOM_STEP` each time while above `ZOOM_FLOOR` and
/// then holds, so from above `ZOOM_FLOOR - ZOOM_STEP` it never falls to it.
pub proof fn lemma_zoom_in_repeated(s: Viewport, n: nat)
    requires
        s.wf(),
        s.running,
    ensures
        s.repeat(Command::ZoomIn, n) == (Viewport { step: s.repeat(Command::ZoomIn, n).step, ..s }),
        0 < s.repeat(Command::ZoomIn, n).step <= s.step,
        s.step > ZOOM_FLOOR - ZOOM_STEP ==> s.repeat(Command::ZoomIn, n).step > ZOOM_FLOOR
            - ZOOM_STEP,
        s.step - n * ZOOM_STEP > ZOOM_FLOOR - ZOOM_STEP ==> s.repeat(Command::ZoomIn, n).step
            == s.step - n * ZOOM_STEP,
    decreases n,
{
    if n > 0 {
        lemma_zoom_in_repeated(s, (n - 1) as nat);
    }
}

/// `p` moved by `(dx, dy)`, or `p` where that would leave the bounded plane.
fn move_point(p: Point, dx: i64, dy: i64) -> (r: Point)
    requires
        bounded(p.x as int),
        bounded(p.y as int),
        bounded(dx as int),
        bounded(dy as int),
    ensures
        r == moved(p, dx as int, dy as int),
{
    let x = p.x + dx;
    let y = p.y + dy;
    if -LIMIT <= x && x <= LIMIT && -LIMIT <= y && y <= LIMIT {
        Point { x, y }
    } else {
        p
    }
}

/// A screen extent times a bounded step stays far inside `i64`.
proof fn lemma_extent_bounded(n: int, step: int)
    requires
        0 <= n <= 0xffff,
        0 < step <= LIMIT,
    ensures
        0 <= n * step <= 0xffff * LIMIT,
{
    assert(0 <= n * step <= 0xffff * LIMIT) by (nonlinear_arith)
        requires
            0 <= n <= 0xffff,
            0 < step <= LIMIT,
    ;
}

} // verus!
