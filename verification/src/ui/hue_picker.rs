use vstd::prelude::*;
use crate::color::Hsv;
use crate::crossterm_commands::{SetCellPixelsColor, ResetDefaultColors, spec_rendered_rgb};
use crate::frac::Frac;
use crate::render::{CellColors, DrawCmd};
use crate::text::repeat_glyph;
use crate::types::Vec2;

verus! {

/// The hue strip: a one-dimensional gradient over all hues at full saturation
/// and value.  With two samples per character cell the hue advances by
/// `360 / (2 * height)` degrees per half-cell.
#[derive(Debug, Clone, PartialEq, Eq)]
pub struct HuePicker {
    pub pos: Vec2,
    pub width: u32,
    pub height: u32,
}

impl HuePicker {
    pub open spec fn wf(self) -> bool {
        &&& 1 <= self.width <= 0xffff
        &&& 1 <= self.height <= 0xffff
    }

    /// The hue selecting row `y` yields: the row's upper sample,
    /// `360 * y / height` degrees.
    pub open spec fn spec_row_hue(self, y: int) -> Frac {
        Frac { num: (360 * y) as u64, den: self.height as u64 }
    }

    /// The full-saturation, full-value color of the half-cell `h` (of
    /// `2 * height`), at `360 * h / (2 * height)` degrees.
    pub open spec fn spec_half_cell_color(self, h: int) -> Hsv {
        Hsv {
            hue: Frac { num: (360 * h) as u64, den: (2 * self.height) as u64 },
            saturation: Frac { num: 1u64, den: 1u64 },
            value: Frac { num: 1u64, den: 1u64 },
        }
    }

    pub fn new(pos: Vec2, width: u32, height: u32) -> (p: HuePicker)
        requires
            1 <= width <= 0xffff,
            1 <= height <= 0xffff,
        ensures
            p.wf(),
            p.pos == pos,
            p.width == width,
            p.height == height,
    {
        HuePicker { pos, width, height }
    }

    /// The hue at a strip coordinate, or a failure outside the strip.
    pub fn get(&self, x: u32, y: u32) -> (r: Result<Frac, ()>)
        requires
            self.wf(),
        ensures
            r is Ok <==> x < self.width && y < self.height,
            r matches Ok(f) ==> f == self.spec_row_hue(y as int) && f.wf() && f.is_hue(),
    {
        if x >= self.width || y >= self.height {
            return Err(());
        }
        Ok(Frac { num: 360 * (y as u64), den: self.height as u64 })
    }

    /// The two color samples of every row: the exact gradient the strip
    /// shows, optionally faded.
    #[verifier::loop_isolation(false)]
    pub fn render_rows(&self, fade: bool) -> (rows: Vec<CellColors>)
        requires
            self.wf(),
        ensures
            rows@.len() == self.height,
            forall|y: int|
                0 <= y < self.height ==> #[trigger] rows@[y] == (CellColors {
                    top: spec_rendered_rgb(self.spec_half_cell_color(2 * y), fade),
                    bottom: spec_rendered_rgb(self.spec_half_cell_color(2 * y + 1), fade),
                }),
    {
        let mut rows: Vec<CellColors> = Vec::new();
        let mut y: u32 = 0;
        while y < self.height
            invariant
                y <= self.height,
                rows@.len() == y,
                forall|yy: int|
                    0 <= yy < y ==> #[trigger] rows@[yy] == (CellColors {
                        top: spec_rendered_rgb(self.spec_half_cell_color(2 * yy), fade),
                        bottom: spec_rendered_rgb(self.spec_half_cell_color(2 * yy + 1), fade),
                    }),
            decreases self.height - y,
        {
            let top = Hsv {
                hue: Frac { num: 360 * (2 * y as u64), den: 2 * self.height as u64 },
                saturation: Frac { num: 1, den: 1 },
                value: Frac { num: 1, den: 1 },
            };
            let bottom = Hsv {
                hue: Frac { num: 360 * (2 * y as u64 + 1), den: 2 * self.height as u64 },
                saturation: Frac { num: 1, den: 1 },
                value: Frac { num: 1, den: 1 },
            };
            let cell = SetCellPixelsColor(top, bottom, fade).commands();
            let rendered = match &cell[0] {
                DrawCmd::SetColors(fg, bg) => CellColors { top: *bg, bottom: *fg },
                _ => CellColors {
                    top: crate::constants::background_color(),
                    bottom: crate::constants::background_color(),
                },
            };
            rows.push(rendered);
            y = y + 1;
        }
        rows
    }

    /// The draw instructions for the strip: position the cursor, then paint
    /// each row with its two samples across the strip's width, then restore
    /// default colors.
    #[verifier::loop_isolation(false)]
    pub fn draw(&self, fade: bool) -> (cmds: Vec<DrawCmd>)
        requires
            self.wf(),
            self.pos.x <= 0xffff,
            self.pos.y <= 0xffff,
        ensures
            cmds@.len() == 1 + 4 * self.height + 1,
            cmds@[0] == DrawCmd::MoveTo(self.pos.x as u16, self.pos.y as u16),
            forall|y: int|
                0 <= y < self.height ==> #[trigger] cmds@[1 + 4 * y] == DrawCmd::SetColors(
                    spec_rendered_rgb(self.spec_half_cell_color(2 * y + 1), fade),
                    spec_rendered_rgb(self.spec_half_cell_color(2 * y), fade),
                ),
    {
        proof {
            reveal_strlit("\u{2584}");
        }
        let mut cmds: Vec<DrawCmd> = Vec::new();
        cmds.push(DrawCmd::MoveTo(self.pos.x as u16, self.pos.y as u16));
        let mut y: u32 = 0;
        while y < self.height
            invariant
                y <= self.height,
                cmds@.len() == 1 + 4 * y,
                cmds@[0] == DrawCmd::MoveTo(self.pos.x as u16, self.pos.y as u16),
                forall|yy: int|
                    0 <= yy < y ==> #[trigger] cmds@[1 + 4 * yy] == DrawCmd::SetColors(
                        spec_rendered_rgb(self.spec_half_cell_color(2 * yy + 1), fade),
                        spec_rendered_rgb(self.spec_half_cell_color(2 * yy), fade),
                    ),
            decreases self.height - y,
        {
            let top = Hsv {
                hue: Frac { num: 360 * (2 * y as u64), den: 2 * self.height as u64 },
                saturation: Frac { num: 1, den: 1 },
                value: Frac { num: 1, den: 1 },
            };
            let bottom = Hsv {
                hue: Frac { num: 360 * (2 * y as u64 + 1), den: 2 * self.height as u64 },
                saturation: Frac { num: 1, den: 1 },
                value: Frac { num: 1, den: 1 },
            };
            let mut cell = SetCellPixelsColor(top, bottom, fade).commands();
            cmds.push(cell.remove(0));
            cmds.push(DrawCmd::Print(repeat_glyph("\u{2584}", self.width as usize)));
            cmds.push(DrawCmd::MoveLeft(self.width as u16));
            cmds.push(DrawCmd::MoveDown(1));
            y = y + 1;
        }
        let mut reset = ResetDefaultColors(fade).commands();
        cmds.push(reset.remove(0));
        cmds
    }
}

} // verus!
