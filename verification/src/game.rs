//! The automaton state and the operations the event loop drives it with.

use vstd::arithmetic::div_mod::lemma_fundamental_div_mod_converse;
use vstd::prelude::*;

use crate::cell::Cell;
use crate::rules::{
    display_value, flat_index, live_neighbors_upto, next_cell_state, offset_x, offset_y,
};

verus! {

/// A user action, reduced to what the automaton reads of it: cursor
/// position in pixels, the left mouse button, the key that toggles
/// between editing and simulating, and the keys that change the pause
/// between generations.
#[derive(Clone, Copy, PartialEq, Eq, Structural, Debug)]
pub enum InputEvent {
    CursorMoved { x: u32, y: u32 },
    MouseInput { pressed: bool },
    ToggleDrawing,
    SpeedUp,
    SlowDown,
}

/// The Game of Life grid and the interaction state around it.
///
/// `cells` holds the authoritative live/dead state of each cell in
/// row-major order; `current_state_data` holds the state words handed to
/// the renderer, and `next_state_data` is the scratch row the generation
/// step writes before the two are swapped.
pub struct Game {
    pub cells: Vec<Cell>,
    pub cell_size: u32,
    pub num_cells_x: u32,
    pub num_cells_y: u32,
    pub dx: Vec<i32>,
    pub dy: Vec<i32>,
    pub current_state_data: Vec<u32>,
    pub next_state_data: Vec<u32>,
    pub mouse_x: u32,
    pub mouse_y: u32,
    pub is_mouse_button_pressed: bool,
    pub drawing: bool,
    pub time_between_generations_ms: u64,
}

impl Game {
    /// The grid is non-empty, every flat index fits the machine's
    /// arithmetic, the three per-cell vectors agree in length with the
    /// grid, each cell sits at its own grid position, and the neighbor
    /// offset tables hold the eight directions.
    pub open spec fn wf(self) -> bool {
        &&& 1 <= self.num_cells_x
        &&& 1 <= self.num_cells_y
        &&& 1 <= self.cell_size
        &&& self.num_cells_x * self.num_cells_y <= i32::MAX
        &&& self.num_cells_x * self.cell_size <= u32::MAX
        &&& self.num_cells_y * self.cell_size <= u32::MAX
        &&& self.cells@.len() == self.num_cells_x * self.num_cells_y
        &&& self.current_state_data@.len() == self.cells@.len()
        &&& self.next_state_data@.len() == self.cells@.len()
        &&& forall|i: int|
            0 <= i < self.cells@.len() ==> (#[trigger] self.cells@[i]).x == (i % (
            self.num_cells_x as int)) * self.cell_size && self.cells@[i].y == (i / (
            self.num_cells_x as int)) * self.cell_size
        &&& self.dx@.len() == 8
        &&& self.dy@.len() == 8
        &&& forall|k: int| 0 <= k < 8 ==> #[trigger] self.dx@[k] == offset_x(k)
        &&& forall|k: int| 0 <= k < 8 ==> #[trigger] self.dy@[k] == offset_y(k)
    }

    /// A fresh grid of `num_cells_x` by `num_cells_y` cells of
    /// `cell_size` pixels, all dead, in editing mode, with the pause
    /// between generations at its starting value.
    pub fn new(num_cells_x: u32, num_cells_y: u32, cell_size: u32) -> (g: Game)
        requires
            1 <= num_cells_x,
            1 <= num_cells_y,
            1 <= cell_size,
            num_cells_x * num_cells_y <= i32::MAX,
            num_cells_x * cell_size <= u32::MAX,
            num_cells_y * cell_size <= u32::MAX,
        ensures
            g.wf(),
            g.num_cells_x == num_cells_x,
            g.num_cells_y == num_cells_y,
            g.cell_size == cell_size,
            forall|i: int| 0 <= i < g.cells@.len() ==> !(#[trigger] g.cells@[i]).state,
            forall|i: int|
                0 <= i < g.current_state_data@.len() ==> #[trigger] g.current_state_data@[i]
                    == 0u32,
            forall|i: int|
                0 <= i < g.next_state_data@.len() ==> #[trigger] g.next_state_data@[i] == 0u32,
            g.mouse_x == 0,
            g.mouse_y == 0,
            !g.is_mouse_button_pressed,
            g.drawing,
            g.time_between_generations_ms == 200,
    {
        let w = num_cells_x;
        let h = num_cells_y;
        let mut cells: Vec<Cell> = Vec::new();
        let mut y: u32 = 0;
        #[verifier::loop_isolation(false)]
        while y < h
            invariant
                y <= h,
                cells@.len() == y * w,
                forall|i: int|
                    0 <= i < cells@.len() ==> (#[trigger] cells@[i]).x == (i % (w as int))
                        * cell_size && cells@[i].y == (i / (w as int)) * cell_size
                        && !cells@[i].state,
            decreases h - y,
        {
            let mut x: u32 = 0;
            #[verifier::loop_isolation(false)]
            while x < w
                invariant
                    x <= w,
                    cells@.len() == y * w + x,
                    forall|i: int|
                        0 <= i < cells@.len() ==> (#[trigger] cells@[i]).x == (i % (w as int))
                            * cell_size && cells@[i].y == (i / (w as int)) * cell_size
                            && !cells@[i].state,
                decreases w - x,
            {
                proof {
                    assert(y * w + x < w * h) by (nonlinear_arith)
                        requires
                            0 <= x < w,
                            0 <= y < h,
                    ;
                    assert(x * cell_size < w * cell_size && y * cell_size < h * cell_size)
                        by (nonlinear_arith)
                        requires
                            0 <= x < w,
                            0 <= y < h,
                            1 <= cell_size,
                    ;
                    lemma_fundamental_div_mod_converse(
                        y * w + x,
                        w as int,
                        y as int,
                        x as int,
                    );
                }
                cells.push(Cell { x: x * cell_size, y: y * cell_size, state: false });
                x = x + 1;
            }
            proof {
                assert(y * w + w == (y + 1) * w) by (nonlinear_arith);
            }
            y = y + 1;
        }
        proof {
            assert(h * w == w * h) by (nonlinear_arith);
        }
        let n = cells.len();
        let mut current_state_data: Vec<u32> = Vec::new();
        let mut i: usize = 0;
        #[verifier::loop_isolation(false)]
        while i < n
            invariant
                i <= n,
                current_state_data@.len() == i,
                forall|j: int|
                    0 <= j < i ==> #[trigger] current_state_data@[j] == 0u32,
            decreases n - i,
        {
            current_state_data.push(0u32);
            i = i + 1;
        }
        let mut next_state_data: Vec<u32> = Vec::new();
        let mut j: usize = 0;
        #[verifier::loop_isolation(false)]
        while j < n
            invariant
                j <= n,
                next_state_data@.len() == j,
                forall|i2: int|
                    0 <= i2 < j ==> #[trigger] next_state_data@[i2] == 0u32,
            decreases n - j,
        {
            next_state_data.push(0u32);
            j = j + 1;
        }
        let mut dx: Vec<i32> = Vec::new();
        dx.push(-1);
        dx.push(-1);
        dx.push(-1);
        dx.push(0);
        dx.push(0);
        dx.push(1);
        dx.push(1);
        dx.push(1);
        let mut dy: Vec<i32> = Vec::new();
        dy.push(-1);
        dy.push(0);
        dy.push(1);
        dy.push(-1);
        dy.push(1);
        dy.push(-1);
        dy.push(0);
        dy.push(1);
        Game {
            cells,
            cell_size,
            num_cells_x,
            num_cells_y,
            dx,
            dy,
            current_state_data,
            next_state_data,
            mouse_x: 0,
            mouse_y: 0,
            is_mouse_button_pressed: false,
            drawing: true,
            time_between_generations_ms: 200,
        }
    }

    /// Flat index of the cell at column `x`, row `y`, wrapping a
    /// coordinate one step outside the grid onto the opposite edge.
    pub fn position_to_index(&self, x: i32, y: i32) -> (r: u32)
        requires
            self.wf(),
        ensures
            r == flat_index(self.num_cells_x as int, self.num_cells_y as int, x as int, y as int),
            r < self.num_cells_x * self.num_cells_y,
    {
        let w = self.num_cells_x;
        let h = self.num_cells_y;
        proof {
            assert(w <= w * h && h <= w * h) by (nonlinear_arith)
                requires
                    1 <= w,
                    1 <= h,
            ;
        }
        let xx: i32 = if x < 0 {
            (w - 1) as i32
        } else if x >= w as i32 {
            0
        } else {
            x
        };
        let yy: i32 = if y < 0 {
            (h - 1) as i32
        } else if y >= h as i32 {
            0
        } else {
            y
        };
        proof {
            assert(0 <= yy * (w as int) + xx < w * h) by (nonlinear_arith)
                requires
                    0 <= xx < w,
                    0 <= yy < h,
                    1 <= w,
                    1 <= h,
            ;
        }
        (yy * (w as i32) + xx) as u32
    }

    /// One generation step: every cell's next state word is computed from
    /// the current state words by the Game of Life rule with toroidal
    /// neighbor lookups, and the freshly written grid becomes current
    /// while the previous one becomes the scratch grid.
    pub fn step_generation(&mut self)
        requires
            old(self).wf(),
        ensures
            final(self).wf(),
            *final(self) == (Game {
                current_state_data: final(self).current_state_data,
                next_state_data: final(self).next_state_data,
                ..*old(self)
            }),
            final(self).current_state_data@.len() == old(self).current_state_data@.len(),
            forall|i: int|
                0 <= i < final(self).current_state_data@.len()
                    ==> #[trigger] final(self).current_state_data@[i] == next_cell_state(
                    old(self).current_state_data@,
                    old(self).num_cells_x as int,
                    old(self).num_cells_y as int,
                    i,
                ),
            final(self).next_state_data@ == old(self).current_state_data@,
    {
        let w = self.num_cells_x;
        let h = self.num_cells_y;
        proof {
            assert(w <= w * h && h <= w * h) by (nonlinear_arith)
                requires
                    1 <= w,
                    1 <= h,
            ;
        }
        let mut y: u32 = 0;
        #[verifier::loop_isolation(false)]
        while y < h
            invariant
                y <= h,
                *self == (Game { next_state_data: self.next_state_data, ..*old(self) }),
                self.next_state_data@.len() == old(self).next_state_data@.len(),
                forall|i: int|
                    0 <= i < y * w ==> #[trigger] self.next_state_data@[i] == next_cell_state(
                        self.current_state_data@,
                        w as int,
                        h as int,
                        i,
                    ),
            decreases h - y,
        {
            let mut x: u32 = 0;
            #[verifier::loop_isolation(false)]
            while x < w
                invariant
                    x <= w,
                    *self == (Game { next_state_data: self.next_state_data, ..*old(self) }),
                    self.next_state_data@.len() == old(self).next_state_data@.len(),
                    forall|i: int|
                        0 <= i < y * w + x ==> #[trigger] self.next_state_data@[i]
                            == next_cell_state(
                            self.current_state_data@,
                            w as int,
                            h as int,
                            i,
                        ),
                decreases w - x,
            {
                let mut neighbours: u32 = 0;
                let mut k: usize = 0;
                #[verifier::loop_isolation(false)]
                while k < self.dx.len()
                    invariant
                        k <= 8,
                        neighbours <= k,
                        *self == (Game { next_state_data: self.next_state_data, ..*old(self) }),
                        self.next_state_data@.len() == old(self).next_state_data@.len(),
                        neighbours == live_neighbors_upto(
                            self.current_state_data@,
                            w as int,
                            h as int,
                            x as int,
                            y as int,
                            k as int,
                        ),
                    decreases 8 - k,
                {
                    let nx: i32 = x as i32 + self.dx[k];
                    let ny: i32 = y as i32 + self.dy[k];
                    let nidx = self.position_to_index(nx, ny);
                    let c = self.current_state_data[nidx as usize];
                    neighbours = neighbours + (if c >= 1 {
                        1
                    } else {
                        0
                    });
                    k = k + 1;
                }
                let index_u32 = self.position_to_index(x as i32, y as i32);
                let index = index_u32 as usize;
                proof {
                    assert(index_u32 == y * w + x);
                    lemma_fundamental_div_mod_converse(y * w + x, w as int, y as int, x as int);
                }
                let val: u32 = if self.current_state_data[index] > 0 {
                    if neighbours == 2 || neighbours == 3 {
                        1
                    } else {
                        0
                    }
                } else {
                    if neighbours == 3 {
                        1
                    } else {
                        0
                    }
                };
                self.next_state_data.set(index, val);
                x = x + 1;
            }
            proof {
                assert(y * w + w == (y + 1) * w) by (nonlinear_arith);
            }
            y = y + 1;
        }
        proof {
            assert(h * w == w * h) by (nonlinear_arith);
        }
        std::mem::swap(&mut self.current_state_data, &mut self.next_state_data);
    }

    /// One frame's worth of work on the automaton, given how many
    /// milliseconds have passed since the last generation ran.
    ///
    /// In editing mode the cell under the cursor is toggled while the
    /// button is held, and the display words are rebuilt from the cells
    /// with the cursor cell highlighted. In simulating mode a generation
    /// is stepped once the elapsed time reaches the pause between
    /// generations — the result says whether that happened, so the caller
    /// can restart its clock — and before that nothing changes.
    pub fn update(&mut self, elapsed_ms: u64) -> (stepped: bool)
        requires
            old(self).wf(),
        ensures
            final(self).wf(),
            ({
                let w = old(self).num_cells_x as int;
                let h = old(self).num_cells_y as int;
                let ci = flat_index(
                    w,
                    h,
                    old(self).mouse_x as int / old(self).cell_size as int,
                    old(self).mouse_y as int / old(self).cell_size as int,
                );
                if old(self).drawing {
                    &&& !stepped
                    &&& final(self).cells@ == (if old(self).is_mouse_button_pressed {
                        old(self).cells@.update(
                            ci,
                            (Cell { state: !old(self).cells@[ci].state, ..old(self).cells@[ci] }),
                        )
                    } else {
                        old(self).cells@
                    })
                    &&& final(self).current_state_data@.len() == old(
                        self,
                    ).current_state_data@.len()
                    &&& forall|i: int|
                        0 <= i < final(self).current_state_data@.len()
                            ==> #[trigger] final(self).current_state_data@[i] == display_value(
                            final(self).cells@[i].state,
                            i == ci,
                        )
                    &&& *final(self) == (Game {
                        cells: final(self).cells,
                        current_state_data: final(self).current_state_data,
                        ..*old(self)
                    })
                } else if elapsed_ms >= old(self).time_between_generations_ms {
                    &&& stepped
                    &&& final(self).current_state_data@.len() == old(
                        self,
                    ).current_state_data@.len()
                    &&& forall|i: int|
                        0 <= i < final(self).current_state_data@.len()
                            ==> #[trigger] final(self).current_state_data@[i] == next_cell_state(
                            old(self).current_state_data@,
                            w,
                            h,
                            i,
                        )
                    &&& final(self).next_state_data@ == old(self).current_state_data@
                    &&& *final(self) == (Game {
                        current_state_data: final(self).current_state_data,
                        next_state_data: final(self).next_state_data,
                        ..*old(self)
                    })
                } else {
                    &&& !stepped
                    &&& *final(self) == *old(self)
                }
            }),
    {
        if self.drawing {
            let w = self.num_cells_x;
            let h = self.num_cells_y;
            proof {
                assert(w <= w * h && h <= w * h) by (nonlinear_arith)
                    requires
                        1 <= w,
                        1 <= h,
                ;
            }
            let cell_x: u32 = self.mouse_x / self.cell_size;
            let cell_y: u32 = self.mouse_y / self.cell_size;
            let gx: u32 = if cell_x >= w {
                0
            } else {
                cell_x
            };
            let gy: u32 = if cell_y >= h {
                0
            } else {
                cell_y
            };
            proof {
                assert(0 <= gy * (w as int) + gx < w * h) by (nonlinear_arith)
                    requires
                        0 <= gx < w,
                        0 <= gy < h,
                        1 <= w,
                        1 <= h,
                ;
            }
            let cell_index: u32 = gy * w + gx;
            let ghost ci = flat_index(
                w as int,
                h as int,
                self.mouse_x as int / self.cell_size as int,
                self.mouse_y as int / self.cell_size as int,
            );
            proof {
                assert(cell_index == ci);
            }
            if self.is_mouse_button_pressed {
                let c = self.cells[cell_index as usize];
                self.cells.set(cell_index as usize, Cell { x: c.x, y: c.y, state: !c.state });
            }
            let n = self.cells.len();
            let mut data: Vec<u32> = Vec::new();
            let mut i: usize = 0;
            #[verifier::loop_isolation(false)]
            while i < n
                invariant
                    i <= n,
                    data@.len() == i,
                    forall|j: int|
                        0 <= j < i ==> #[trigger] data@[j] == display_value(
                            self.cells@[j].state,
                            j == cell_index as int,
                        ),
                decreases n - i,
            {
                let v: u32 = if i == cell_index as usize {
                    if self.cells[i].state {
                        3
                    } else {
                        2
                    }
                } else {
                    if self.cells[i].state {
                        1
                    } else {
                        0
                    }
                };
                data.push(v);
                i = i + 1;
            }
            self.current_state_data = data;
            false
        } else {
            if elapsed_ms >= self.time_between_generations_ms {
                self.step_generation();
                true
            } else {
                false
            }
        }
    }

    /// Apply one user action: move the cursor, press or release the
    /// button, switch between editing and simulating, or shorten or
    /// lengthen the pause between generations by its 50 millisecond step
    /// (never below zero, never past the widest pause that fits).
    pub fn input(&mut self, event: &InputEvent)
        requires
            old(self).wf(),
        ensures
            final(self).wf(),
            match *event {
                InputEvent::CursorMoved { x, y } => *final(self) == (Game {
                    mouse_x: x,
                    mouse_y: y,
                    ..*old(self)
                }),
                InputEvent::MouseInput { pressed } => *final(self) == (Game {
                    is_mouse_button_pressed: pressed,
                    ..*old(self)
                }),
                InputEvent::ToggleDrawing => *final(self) == (Game {
                    drawing: !old(self).drawing,
                    ..*old(self)
                }),
                InputEvent::SpeedUp => *final(self) == (Game {
                    time_between_generations_ms: (if old(self).time_between_generations_ms >= 50 {
                        (old(self).time_between_generations_ms - 50) as u64
                    } else {
                        old(self).time_between_generations_ms
                    }),
                    ..*old(self)
                }),
                InputEvent::SlowDown => *final(self) == (Game {
                    time_between_generations_ms: (if old(self).time_between_generations_ms
                        <= u64::MAX - 50 {
                        (old(self).time_between_generations_ms + 50) as u64
                    } else {
                        old(self).time_between_generations_ms
                    }),
                    ..*old(self)
                }),
            },
    {
        match *event {
            InputEvent::CursorMoved { x, y } => {
                self.mouse_x = x;
                self.mouse_y = y;
            },
            InputEvent::MouseInput { pressed } => {
                self.is_mouse_button_pressed = pressed;
            },
            InputEvent::ToggleDrawing => {
                self.drawing = !self.drawing;
            },
            InputEvent::SpeedUp => {
                if self.time_between_generations_ms >= 50 {
                    self.time_between_generations_ms = self.time_between_generations_ms - 50;
                }
            },
            InputEvent::SlowDown => {
                if self.time_between_generations_ms <= u64::MAX - 50 {
                    self.time_between_generations_ms = self.time_between_generations_ms + 50;
                }
            },
        }
    }
}

} // verus!
