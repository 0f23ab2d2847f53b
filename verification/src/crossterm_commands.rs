use vstd::prelude::*;
use crate::color::{Hsv, spec_rgb_from_hsv};
use crate::constants::{CustomRgb, background_color, text_color, faded_text_color, FADE_VALUE_DEN};
use crate::frac::DEN_MAX;
use crate::render::DrawCmd;
use crate::text::spec_repeat;
use crate::types::Vec2;
use crate::utils::{fade_color, rgb_from_hsv, spec_fade};

verus! {

/// The RGB triple a faded or unfaded color renders as.
pub open spec fn spec_rendered_rgb(color: Hsv, fade: bool) -> CustomRgb {
    let c = if fade {
        Hsv { hue: color.hue, saturation: color.saturation, value: spec_fade(color.value) }
    } else {
        color
    };
    let rgb = spec_rgb_from_hsv(c);
    CustomRgb { r: rgb.0, g: rgb.1, b: rgb.2 }
}

/// Applies the fade flag and converts to RGB.
pub fn rendered_rgb(color: &Hsv, fade: bool) -> (c: CustomRgb)
    requires
        color.wf(),
        FADE_VALUE_DEN * color.value.den <= DEN_MAX,
    ensures
        c == spec_rendered_rgb(*color, fade),
{
    let shown = if fade {
        fade_color(*color)
    } else {
        *color
    };
    let rgb = rgb_from_hsv(&shown);
    CustomRgb { r: rgb.0, g: rgb.1, b: rgb.2 }
}

/// Sets the foreground to a color, darkened when the fade flag is on.
pub struct SetForegroundColorWithFade(pub Hsv, pub bool);

impl SetForegroundColorWithFade {
    pub fn commands(&self) -> (cmds: Vec<DrawCmd>)
        requires
            self.0.wf(),
            FADE_VALUE_DEN * self.0.value.den <= DEN_MAX,
        ensures
            cmds@.len() == 1,
            cmds@[0] == DrawCmd::SetFg(spec_rendered_rgb(self.0, self.1)),
    {
        let mut cmds: Vec<DrawCmd> = Vec::new();
        cmds.push(DrawCmd::SetFg(rendered_rgb(&self.0, self.1)));
        cmds
    }
}

/// The default text color over the background color; faded text when the
/// flag is on.
pub struct ResetDefaultColors(pub bool);

/// The foreground that `ResetDefaultColors` selects.
pub open spec fn spec_default_fg(fade: bool) -> CustomRgb {
    if fade {
        CustomRgb { r: 0x80u8, g: 0x80u8, b: 0x80u8 }
    } else {
        CustomRgb { r: 0xffu8, g: 0xffu8, b: 0xffu8 }
    }
}

impl ResetDefaultColors {
    pub fn commands(&self) -> (cmds: Vec<DrawCmd>)
        ensures
            cmds@.len() == 1,
            cmds@[0] == DrawCmd::SetColors(
                spec_default_fg(self.0),
                CustomRgb { r: 0x1du8, g: 0x1du8, b: 0x1du8 },
            ),
    {
        let fg = if self.0 {
            faded_text_color()
        } else {
            text_color()
        };
        let mut cmds: Vec<DrawCmd> = Vec::new();
        cmds.push(DrawCmd::SetColors(fg, background_color()));
        cmds
    }
}

/// Colors one character cell so that its glyph shows two stacked samples: the
/// first color becomes the background (the upper half), the second the
/// foreground (the lower half of a lower-half-block glyph).
pub struct SetCellPixelsColor(pub Hsv, pub Hsv, pub bool);

impl SetCellPixelsColor {
    pub fn commands(&self) -> (cmds: Vec<DrawCmd>)
        requires
            self.0.wf(),
            self.1.wf(),
            FADE_VALUE_DEN * self.0.value.den <= DEN_MAX,
            FADE_VALUE_DEN * self.1.value.den <= DEN_MAX,
        ensures
            cmds@.len() == 1,
            cmds@[0] == DrawCmd::SetColors(
                spec_rendered_rgb(self.1, self.2),
                spec_rendered_rgb(self.0, self.2),
            ),
    {
        let top = rendered_rgb(&self.0, self.2);
        let bottom = rendered_rgb(&self.1, self.2);
        let mut cmds: Vec<DrawCmd> = Vec::new();
        cmds.push(DrawCmd::SetColors(bottom, top));
        cmds
    }
}

/// Blanks a rectangle: position, width, height.
pub struct FillRect(pub Vec2, pub u16, pub u16);

impl FillRect {
    #[verifier::loop_isolation(false)]
    pub fn commands(&self) -> (cmds: Vec<DrawCmd>)
        requires
            self.0.x <= u16::MAX,
            self.0.y <= u16::MAX,
        ensures
            cmds@.len() == 1 + 3 * self.2,
            cmds@[0] == DrawCmd::MoveTo(self.0.x as u16, self.0.y as u16),
            forall|i: int|
                0 <= i < self.2 ==> {
                    &&& (#[trigger] cmds@[1 + 3 * i]) matches DrawCmd::Print(s) && s@
                        == spec_repeat(' ', self.1 as int)
                    &&& cmds@[2 + 3 * i] == DrawCmd::MoveDown(1u16)
                    &&& cmds@[3 + 3 * i] == DrawCmd::MoveLeft(self.1)
                },
    {
        proof {
            reveal_strlit(" ");
        }
        let mut cmds: Vec<DrawCmd> = Vec::new();
        cmds.push(DrawCmd::MoveTo(self.0.x as u16, self.0.y as u16));
        let mut row: u16 = 0;
        while row < self.2
            invariant
                row <= self.2,
                cmds@.len() == 1 + 3 * row,
                cmds@[0] == DrawCmd::MoveTo(self.0.x as u16, self.0.y as u16),
                forall|i: int|
                    0 <= i < row ==> {
                        &&& (#[trigger] cmds@[1 + 3 * i]) matches DrawCmd::Print(s) && s@
                            == spec_repeat(' ', self.1 as int)
                        &&& cmds@[2 + 3 * i] == DrawCmd::MoveDown(1u16)
                        &&& cmds@[3 + 3 * i] == DrawCmd::MoveLeft(self.1)
                    },
            decreases self.2 - row,
        {
            cmds.push(DrawCmd::Print(crate::text::repeat_glyph(" ", self.1 as usize)));
            cmds.push(DrawCmd::MoveDown(1));
            cmds.push(DrawCmd::MoveLeft(self.1));
            row = row + 1;
        }
        cmds
    }
}

/// Prints text in bold.
pub struct PrintBold(pub String);

impl PrintBold {
    pub fn commands(&self) -> (cmds: Vec<DrawCmd>)
        ensures
            cmds@.len() == 1,
            cmds@[0] matches DrawCmd::PrintBold(s) && s@ == self.0@,
    {
        let mut cmds: Vec<DrawCmd> = Vec::new();
        cmds.push(DrawCmd::PrintBold(self.0.clone()));
        cmds
    }
}

/// Prints text in bold with a foreground color.
pub struct PrintBoldColored(pub String, pub u8, pub u8, pub u8);

impl PrintBoldColored {
    pub fn commands(&self) -> (cmds: Vec<DrawCmd>)
        ensures
            cmds@.len() == 1,
            cmds@[0] matches DrawCmd::PrintBoldColored(s, c) && s@ == self.0@ && c == (CustomRgb {
                r: self.1,
                g: self.2,
                b: self.3,
            }),
    {
        let mut cmds: Vec<DrawCmd> = Vec::new();
        cmds.push(
            DrawCmd::PrintBoldColored(
                self.0.clone(),
                CustomRgb { r: self.1, g: self.2, b: self.3 },
            ),
        );
        cmds
    }
}

/// Draws a one-cell box border: position, width, height, rounded corners.
/// The border is drawn clockwise from the top-left corner and the inside of
/// the box is blanked.
pub struct DrawBoxBorder(pub Vec2, pub u16, pub u16, pub bool);

/// The four corner glyphs, clockwise from the top left.
pub open spec fn spec_box_corners(rounded: bool) -> (char, char, char, char) {
    if rounded {
        ('\u{256d}', '\u{256e}', '\u{256f}', '\u{2570}')
    } else {
        ('\u{250c}', '\u{2510}', '\u{2518}', '\u{2514}')
    }
}

impl DrawBoxBorder {
    #[verifier::loop_isolation(false)]
    pub fn commands(&self) -> (cmds: Vec<DrawCmd>)
        requires
            self.0.x + 1 <= u16::MAX,
            self.0.y + 1 <= u16::MAX,
            self.1 >= 2,
            self.2 >= 2,
        ensures
            cmds@.len() > 4,
            cmds@[0] == DrawCmd::MoveTo(self.0.x as u16, self.0.y as u16),
            cmds@[1] matches DrawCmd::Print(s) && s@ == seq![spec_box_corners(self.3).0],
            cmds@[2] matches DrawCmd::Print(s) && s@ == spec_repeat('\u{2500}', self.1 - 2),
            cmds@[3] matches DrawCmd::Print(s) && s@ == seq![spec_box_corners(self.3).1],
    {
        proof {
            reveal_strlit("\u{256d}");
            reveal_strlit("\u{256e}");
            reveal_strlit("\u{2570}");
            reveal_strlit("\u{256f}");
            reveal_strlit("\u{250c}");
            reveal_strlit("\u{2510}");
            reveal_strlit("\u{2514}");
            reveal_strlit("\u{2518}");
            reveal_strlit("\u{2500}");
            reveal_strlit("\u{2502}");
        }
        let (top_left, top_right, bottom_left, bottom_right) = if self.3 {
            ("\u{256d}", "\u{256e}", "\u{2570}", "\u{256f}")
        } else {
            ("\u{250c}", "\u{2510}", "\u{2514}", "\u{2518}")
        };
        let width = self.1;
        let height = self.2;
        let mut cmds: Vec<DrawCmd> = Vec::new();
        // Top edge, then the right side downwards.
        cmds.push(DrawCmd::MoveTo(self.0.x as u16, self.0.y as u16));
        cmds.push(DrawCmd::Print(String::from_str(top_left)));
        cmds.push(DrawCmd::Print(crate::text::repeat_glyph("\u{2500}", (width - 2) as usize)));
        cmds.push(DrawCmd::Print(String::from_str(top_right)));
        proof {
            assert(top_left@ =~= seq![spec_box_corners(self.3).0]);
            assert(top_right@ =~= seq![spec_box_corners(self.3).1]);
        }
        let ghost top_edge = cmds@;
        let mut row: u16 = 1;
        while row < height - 1
            invariant
                cmds@.len() >= 4,
                cmds@.subrange(0, 4) == top_edge,
            decreases height - 1 - row,
        {
            cmds.push(DrawCmd::MoveDown(1));
            cmds.push(DrawCmd::MoveLeft(1));
            cmds.push(DrawCmd::Print(String::from_str("\u{2502}")));
            row = row + 1;
            proof {
                assert(cmds@.subrange(0, 4) =~= top_edge);
            }
        }
        cmds.push(DrawCmd::MoveDown(1));
        cmds.push(DrawCmd::MoveLeft(1));
        cmds.push(DrawCmd::Print(String::from_str(bottom_right)));
        // Back to the top-left corner: the left side downwards, then the
        // bottom edge.
        cmds.push(DrawCmd::MoveTo(self.0.x as u16, self.0.y as u16));
        let mut row2: u16 = 0;
        while row2 < height - 1
            invariant
                cmds@.len() >= 4,
                cmds@.subrange(0, 4) == top_edge,
            decreases height - 1 - row2,
        {
            cmds.push(DrawCmd::MoveDown(1));
            cmds.push(DrawCmd::Print(String::from_str("\u{2502}")));
            cmds.push(DrawCmd::MoveLeft(1));
            row2 = row2 + 1;
            proof {
                assert(cmds@.subrange(0, 4) =~= top_edge);
            }
        }
        cmds.push(DrawCmd::Print(String::from_str(bottom_left)));
        cmds.push(DrawCmd::Print(crate::text::repeat_glyph("\u{2500}", (width - 2) as usize)));
        // Blank the inside of the box.
        let inner = FillRect(
            Vec2 { x: self.0.x + 1, y: self.0.y + 1 },
            width - 2,
            height - 2,
        );
        let mut inner_cmds = inner.commands();
        let mut k: usize = 0;
        let end = inner_cmds.len();
        while k < end
            invariant
                cmds@.len() >= 5,
                cmds@.subrange(0, 4) == top_edge,
                k <= end == inner_cmds@.len(),
            decreases end - k,
        {
            let cmd = inner_cmds[k].clone();
            cmds.push(cmd);
            k = k + 1;
            proof {
                assert(cmds@.subrange(0, 4) =~= top_edge);
            }
        }
        proof {
            assert(cmds@[0] == top_edge[0] && cmds@[1] == top_edge[1] && cmds@[2] == top_edge[2]
                && cmds@[3] == top_edge[3]);
        }
        cmds
    }
}

} // verus!
