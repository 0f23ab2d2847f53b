use vstd::prelude::*;
use vstd::arithmetic::mul::{lemma_mul_inequality, lemma_mul_upper_bound};
use crate::color::Hsv;
use crate::constants::FADE_VALUE_DEN;
use crate::crossterm_commands::{SetCellPixelsColor, ResetDefaultColors, spec_rendered_rgb};
use crate::frac::{Frac, DEN_MAX};
use crate::render::{CellColors, DrawCmd};
use crate::text::repeat_glyph;
use crate::types::Vec2;

verus! {

/// The saturation/value grid: a rectangle of cells at a fixed hue.  Saturation
/// grows rightwards (column `x` has saturation `x / width`), value falls
/// downwards; each character cell shows two vertically stacked samples, so the
/// vertical resolution is `2 * height`.  The grid also owns the currently
/// selected color of the whole picker.
#[derive(Debug, Clone, PartialEq, Eq)]
pub struct SVPicker {
    pub pos: Vec2,
    pub selected_color: Hsv,
    pub width: u32,
    pub height: u32,
}

impl SVPicker {
    pub open spec fn wf(self) -> bool {
        &&& 1 <= self.width <= 0xffff
        &&& 1 <= self.height <= 0xffff
        &&& self.selected_color.wf()
        &&& FADE_VALUE_DEN * self.selected_color.value.den <= DEN_MAX
    }

    /// The color that selecting the grid cell `(x, y)` yields: the current
    /// hue, saturation `x / width`, value `1 - y / height`.
    pub open spec fn spec_grid_color(self, x: int, y: int) -> Hsv {
        Hsv {
            hue: self.selected_color.hue,
            saturation: Frac { num: x as u64, den: self.width as u64 },
            value: Frac { num: (self.height - y) as u64, den: self.height as u64 },
        }
    }

    /// The upper sample of the cell at `(x, y)`: the grid color itself.
    pub open spec fn spec_cell_top(self, x: int, y: int) -> Hsv {
        self.spec_grid_color(x, y)
    }

    /// The lower sample of the cell at `(x, y)`: one half-cell step darker.
    pub open spec fn spec_cell_bottom(self, x: int, y: int) -> Hsv {
        Hsv {
            hue: self.selected_color.hue,
            saturation: Frac { num: x as u64, den: self.width as u64 },
            value: Frac {
                num: (2 * (self.height - y) - 1) as u64,
                den: (2 * self.height) as u64,
            },
        }
    }

    pub fn new(pos: Vec2, width: u32, height: u32) -> (p: SVPicker)
        requires
            1 <= width <= 0xffff,
            1 <= height <= 0xffff,
        ensures
            p.wf(),
            p.pos == pos,
            p.width == width,
            p.height == height,
            p.selected_color == (Hsv {
                hue: Frac { num: 0u64, den: 1u64 },
                saturation: Frac { num: 1u64, den: 1u64 },
                value: Frac { num: 1u64, den: 1u64 },
            }),
    {
        SVPicker {
            pos,
            width,
            height,
            selected_color: Hsv {
                hue: Frac { num: 0, den: 1 },
                saturation: Frac { num: 1, den: 1 },
                value: Frac { num: 1, den: 1 },
            },
        }
    }

    /// The color at a grid coordinate, or a failure outside the grid.
    pub fn get(&self, x: u32, y: u32) -> (r: Result<Hsv, ()>)
        requires
            self.wf(),
        ensures
            r is Ok <==> x < self.width && y < self.height,
            r matches Ok(c) ==> c == self.spec_grid_color(x as int, y as int) && c.wf(),
    {
        if x >= self.width || y >= self.height {
            return Err(());
        }
        proof {
            lemma_grid_color_wf(*self, x as int, y as int);
        }
        Ok(
            Hsv {
                hue: self.selected_color.hue,
                saturation: Frac { num: x as u64, den: self.width as u64 },
                value: Frac { num: (self.height - y) as u64, den: self.height as u64 },
            },
        )
    }

    /// The currently selected color.
    pub fn get_current(&self) -> (c: Hsv)
        ensures
            c == self.selected_color,
    {
        self.selected_color
    }

    /// Changes only the hue, keeping the user's saturation/value choice.
    pub fn set_hue(&mut self, hue: Frac)
        requires
            old(self).wf(),
            hue.wf() && hue.is_hue(),
        ensures
            final(self).wf(),
            final(self).selected_color.hue == hue,
            final(self).selected_color.saturation == old(self).selected_color.saturation,
            final(self).selected_color.value == old(self).selected_color.value,
            final(self).pos == old(self).pos && final(self).width == old(self).width && final(self).height == old(self).height,
    {
        self.selected_color = Hsv {
            hue,
            saturation: self.selected_color.saturation,
            value: self.selected_color.value,
        };
    }

    /// Replaces the whole selected color.
    pub fn change_selected(&mut self, color: Hsv)
        requires
            old(self).wf(),
            color.wf(),
            FADE_VALUE_DEN * color.value.den <= DEN_MAX,
        ensures
            final(self).wf(),
            final(self).selected_color == color,
            final(self).pos == old(self).pos && final(self).width == old(self).width && final(self).height == old(self).height,
    {
        self.selected_color = color;
    }

    /// Selects the grid cell `(x, y)`: inside the grid the selected color
    /// becomes the grid color there; outside nothing changes.
    pub fn change_color(&mut self, x: u32, y: u32) -> (r: Result<(), ()>)
        requires
            old(self).wf(),
        ensures
            final(self).wf(),
            r is Ok <==> x < old(self).width && y < old(self).height,
            r is Ok ==> final(self).selected_color == old(self).spec_grid_color(x as int, y as int),
            r is Err ==> *final(self) == *old(self),
            final(self).pos == old(self).pos && final(self).width == old(self).width && final(self).height == old(self).height,
    {
        if x >= self.width || y >= self.height {
            return Err(());
        }
        proof {
            lemma_grid_color_wf(*self, x as int, y as int);
        }
        self.selected_color = Hsv {
            hue: self.selected_color.hue,
            saturation: Frac { num: x as u64, den: self.width as u64 },
            value: Frac { num: (self.height - y) as u64, den: self.height as u64 },
        };
        Ok(())
    }

    /// The two color samples of every cell, row-major: the exact gradient the
    /// grid shows, optionally faded.
    #[verifier::loop_isolation(false)]
    pub fn render_cells(&self, fade: bool) -> (cells: Vec<CellColors>)
        requires
            self.wf(),
        ensures
            cells@.len() == self.height * self.width,
            forall|y: int, x: int|
                0 <= y < self.height && 0 <= x < self.width ==> #[trigger] cells@[y * self.width
                    + x] == (CellColors {
                    top: spec_rendered_rgb(self.spec_cell_top(x, y), fade),
                    bottom: spec_rendered_rgb(self.spec_cell_bottom(x, y), fade),
                }),
    {
        let mut cells: Vec<CellColors> = Vec::new();
        let mut y: u32 = 0;
        proof {
            lemma_mul_upper_bound(self.height as int, 0xffff, self.width as int, 0xffff);
        }
        while y < self.height
            invariant
                y <= self.height,
                cells@.len() == y * self.width,
                forall|yy: int, xx: int|
                    0 <= yy < y && 0 <= xx < self.width ==> #[trigger] cells@[yy * self.width
                        + xx] == (CellColors {
                        top: spec_rendered_rgb(self.spec_cell_top(xx, yy), fade),
                        bottom: spec_rendered_rgb(self.spec_cell_bottom(xx, yy), fade),
                    }),
            decreases self.height - y,
    {
            let mut x: u32 = 0;
            while x < self.width
                invariant
                    y < self.height,
                    x <= self.width,
                    cells@.len() == y * self.width + x,
                    forall|yy: int, xx: int|
                        0 <= yy < y && 0 <= xx < self.width ==> #[trigger] cells@[yy * self.width
                            + xx] == (CellColors {
                            top: spec_rendered_rgb(self.spec_cell_top(xx, yy), fade),
                            bottom: spec_rendered_rgb(self.spec_cell_bottom(xx, yy), fade),
                        }),
                    forall|xx: int|
                        0 <= xx < x ==> #[trigger] cells@[y * self.width + xx] == (CellColors {
                            top: spec_rendered_rgb(self.spec_cell_top(xx, y as int), fade),
                            bottom: spec_rendered_rgb(self.spec_cell_bottom(xx, y as int), fade),
                        }),
                decreases self.width - x,
            {
                proof {
                    lemma_grid_color_wf(*self, x as int, y as int);
                    lemma_cell_bottom_wf(*self, x as int, y as int);
                }
                let top = Hsv {
                    hue: self.selected_color.hue,
                    saturation: Frac { num: x as u64, den: self.width as u64 },
                    value: Frac { num: (self.height - y) as u64, den: self.height as u64 },
                };
                let bottom = Hsv {
                    hue: self.selected_color.hue,
                    saturation: Frac { num: x as u64, den: self.width as u64 },
                    value: Frac {
                        num: (2 * (self.height - y) - 1) as u64,
                        den: (2 * self.height) as u64,
                    },
                };
                let cell = SetCellPixelsColor(top, bottom, fade).commands();
                let rendered = match &cell[0] {
                    DrawCmd::SetColors(fg, bg) => CellColors { top: *bg, bottom: *fg },
                    _ => CellColors {
                        top: crate::constants::background_color(),
                        bottom: crate::constants::background_color(),
                    },
                };
                cells.push(rendered);
                x = x + 1;
                proof {
                    assert forall|yy: int, xx: int|
                        0 <= yy < y && 0 <= xx < self.width implies #[trigger] cells@[yy
                        * self.width + xx] == (CellColors {
                        top: spec_rendered_rgb(self.spec_cell_top(xx, yy), fade),
                        bottom: spec_rendered_rgb(self.spec_cell_bottom(xx, yy), fade),
                    }) by {
                        assert((yy + 1) * self.width == yy * self.width + self.width)
                            by (nonlinear_arith);
                        assert((yy + 1) * self.width <= y * self.width) by (nonlinear_arith)
                            requires
                                yy + 1 <= y,
                                self.width >= 0,
                        ;
                    }
                }
            }
            y = y + 1;
            proof {
                assert((y - 1) * self.width + self.width == y * self.width) by (nonlinear_arith);
            }
        }
        cells
    }

    /// The draw instructions for the whole grid: position the cursor, then
    /// paint every cell with its two samples, then restore default colors.
    #[verifier::loop_isolation(false)]
    pub fn draw(&self, fade: bool) -> (cmds: Vec<DrawCmd>)
        requires
            self.wf(),
            self.pos.x <= 0xffff,
            self.pos.y <= 0xffff,
        ensures
            cmds@.len() == 1 + self.height * (2 * self.width + 2) + 1,
            cmds@[0] == DrawCmd::MoveTo(self.pos.x as u16, self.pos.y as u16),
            forall|y: int, x: int|
                0 <= y < self.height && 0 <= x < self.width ==> #[trigger] cmds@[1 + y * (2
                    * self.width + 2) + 2 * x] == DrawCmd::SetColors(
                    spec_rendered_rgb(self.spec_cell_bottom(x, y), fade),
                    spec_rendered_rgb(self.spec_cell_top(x, y), fade),
                ),
    {
        proof {
            reveal_strlit("\u{2584}");
            lemma_mul_upper_bound(
                self.height as int,
                0xffff,
                2 * self.width + 2,
                (2 * 0xffff + 2) as int,
            );
        }
        let mut cmds: Vec<DrawCmd> = Vec::new();
        cmds.push(DrawCmd::MoveTo(self.pos.x as u16, self.pos.y as u16));
        let mut y: u32 = 0;
        while y < self.height
            invariant
                y <= self.height,
                cmds@.len() == 1 + y * (2 * self.width + 2),
                cmds@[0] == DrawCmd::MoveTo(self.pos.x as u16, self.pos.y as u16),
                forall|yy: int, xx: int|
                    0 <= yy < y && 0 <= xx < self.width ==> #[trigger] cmds@[1 + yy * (2
                        * self.width + 2) + 2 * xx] == DrawCmd::SetColors(
                        spec_rendered_rgb(self.spec_cell_bottom(xx, yy), fade),
                        spec_rendered_rgb(self.spec_cell_top(xx, yy), fade),
                    ),
            decreases self.height - y,
        {
            let mut x: u32 = 0;
            while x < self.width
                invariant
                    y < self.height,
                    x <= self.width,
                    cmds@.len() == 1 + y * (2 * self.width + 2) + 2 * x,
                    cmds@[0] == DrawCmd::MoveTo(self.pos.x as u16, self.pos.y as u16),
                    forall|yy: int, xx: int|
                        0 <= yy < y && 0 <= xx < self.width ==> #[trigger] cmds@[1 + yy * (2
                            * self.width + 2) + 2 * xx] == DrawCmd::SetColors(
                            spec_rendered_rgb(self.spec_cell_bottom(xx, yy), fade),
                            spec_rendered_rgb(self.spec_cell_top(xx, yy), fade),
                        ),
                    forall|xx: int|
                        0 <= xx < x ==> #[trigger] cmds@[1 + y * (2 * self.width + 2) + 2 * xx]
                            == DrawCmd::SetColors(
                            spec_rendered_rgb(self.spec_cell_bottom(xx, y as int), fade),
                            spec_rendered_rgb(self.spec_cell_top(xx, y as int), fade),
                        ),
                decreases self.width - x,
            {
                proof {
                    lemma_grid_color_wf(*self, x as int, y as int);
                    lemma_cell_bottom_wf(*self, x as int, y as int);
                }
                let top = Hsv {
                    hue: self.selected_color.hue,
                    saturation: Frac { num: x as u64, den: self.width as u64 },
                    value: Frac { num: (self.height - y) as u64, den: self.height as u64 },
                };
                let bottom = Hsv {
                    hue: self.selected_color.hue,
                    saturation: Frac { num: x as u64, den: self.width as u64 },
                    value: Frac {
                        num: (2 * (self.height - y) - 1) as u64,
                        den: (2 * self.height) as u64,
                    },
                };
                let mut cell = SetCellPixelsColor(top, bottom, fade).commands();
                cmds.push(cell.remove(0));
                cmds.push(DrawCmd::Print(repeat_glyph("\u{2584}", 1)));
                x = x + 1;
                proof {
                    assert forall|yy: int, xx: int|
                        0 <= yy < y && 0 <= xx < self.width implies #[trigger] cmds@[1 + yy * (2
                        * self.width + 2) + 2 * xx] == DrawCmd::SetColors(
                        spec_rendered_rgb(self.spec_cell_bottom(xx, yy), fade),
                        spec_rendered_rgb(self.spec_cell_top(xx, yy), fade),
                    ) by {
                        assert((yy + 1) * (2 * self.width + 2) <= y * (2 * self.width + 2))
                            by (nonlinear_arith)
                            requires
                                yy + 1 <= y,
                                self.width >= 0,
                        ;
                        assert((yy + 1) * (2 * self.width + 2) == yy * (2 * self.width + 2) + 2
                            * self.width + 2) by (nonlinear_arith);
                    }
                }
            }
            cmds.push(DrawCmd::MoveLeft(self.width as u16));
            cmds.push(DrawCmd::MoveDown(1));
            y = y + 1;
            proof {
                assert((y - 1) * (2 * self.width + 2) + 2 * self.width + 2 == y * (2 * self.width
                    + 2)) by (nonlinear_arith);
                assert forall|yy: int, xx: int|
                    0 <= yy < y && 0 <= xx < self.width implies #[trigger] cmds@[1 + yy * (2
                    * self.width + 2) + 2 * xx] == DrawCmd::SetColors(
                    spec_rendered_rgb(self.spec_cell_bottom(xx, yy), fade),
                    spec_rendered_rgb(self.spec_cell_top(xx, yy), fade),
                ) by {
                    assert((yy + 1) * (2 * self.width + 2) <= y * (2 * self.width + 2))
                        by (nonlinear_arith)
                        requires
                            yy + 1 <= y,
                            self.width >= 0,
                    ;
                    assert((yy + 1) * (2 * self.width + 2) == yy * (2 * self.width + 2) + 2
                        * self.width + 2) by (nonlinear_arith);
                }
            }
        }
        let mut reset = ResetDefaultColors(fade).commands();
        cmds.push(reset.remove(0));
        proof {
            assert forall|yy: int, xx: int|
                0 <= yy < self.height && 0 <= xx < self.width implies #[trigger] cmds@[1 + yy * (2
                * self.width + 2) + 2 * xx] == DrawCmd::SetColors(
                spec_rendered_rgb(self.spec_cell_bottom(xx, yy), fade),
                spec_rendered_rgb(self.spec_cell_top(xx, yy), fade),
            ) by {
                assert((yy + 1) * (2 * self.width + 2) <= self.height * (2 * self.width + 2))
                    by (nonlinear_arith)
                    requires
                        yy + 1 <= self.height,
                        self.width >= 0,
                ;
                assert((yy + 1) * (2 * self.width + 2) == yy * (2 * self.width + 2) + 2
                    * self.width + 2) by (nonlinear_arith);
            }
        }
        cmds
    }
}

/// A grid color is well formed: saturation below one, value in (0, 1].
pub proof fn lemma_grid_color_wf(p: SVPicker, x: int, y: int)
    requires
        p.wf(),
        0 <= x < p.width,
        0 <= y < p.height,
    ensures
        p.spec_grid_color(x, y).wf(),
        FADE_VALUE_DEN * p.spec_grid_color(x, y).value.den <= DEN_MAX,
{
}

/// A cell's lower sample is well formed too.
pub proof fn lemma_cell_bottom_wf(p: SVPicker, x: int, y: int)
    requires
        p.wf(),
        0 <= x < p.width,
        0 <= y < p.height,
    ensures
        p.spec_cell_bottom(x, y).wf(),
        FADE_VALUE_DEN * p.spec_cell_bottom(x, y).value.den <= DEN_MAX,
{
}

/// The grid mapping is monotonic: moving right never lowers saturation, and
/// moving down never raises value.
pub proof fn lemma_grid_monotonic(p: SVPicker, x1: int, x2: int, y1: int, y2: int)
    requires
        p.wf(),
        0 <= x1 <= x2 < p.width,
        0 <= y1 <= y2 < p.height,
    ensures
        p.spec_grid_color(x1, y1).saturation.le(p.spec_grid_color(x2, y1).saturation),
        p.spec_grid_color(x1, y2).value.le(p.spec_grid_color(x1, y1).value),
{
    lemma_mul_inequality(x1, x2, p.width as int);
    lemma_mul_inequality(p.height - y2, p.height - y1, p.height as int);
}

} // verus!
