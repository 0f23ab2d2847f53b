use vstd::prelude::*;
use crate::clipboard::paste::{validate_pasted_color, hex_matches, rgb_parse, hsv_parse, spec_hex_rgb};
use crate::clipboard::ui::{
    clear_clipboard_format_selector, draw_clipboard_format_selector, draw_copied_confirmation,
    draw_pasted_confirmation, handle_copy_input_format_selection_input, spec_hex_text,
    spec_rgb_text, spec_hsv_text,
};
use crate::crossterm_commands::spec_rendered_rgb;
use crate::ui::inputs::{spec_focus_prefix, spec_prefill, spec_field_line_index};
use crate::ui::value_display::{spec_rgb_triple_text, spec_hsv_triple_text};
use crate::color::{Hsv, spec_hsv_from_rgb, spec_rgb_from_hsv};
use crate::constants::{
    TOTAL_WIDTH, TOTAL_HEIGHT, SV_PICKER_WIDTH, SV_PICKER_HEIGHT, HUE_PICKER_WIDTH,
    HUE_PICKER_HEIGHT, FADE_VALUE_DEN, COPY_FORMAT_SELECTOR_WIDTH, COPY_FORMAT_SELECTOR_HEIGHT,
};
use crate::constants::{
    value_display_rel_pos, sv_picker_rel_pos, hue_picker_rel_pos, inputs_rel_pos,
    copy_format_selector_rel_pos,
};
use crate::constants::CustomRgb;
use crate::crossterm_commands::{ResetDefaultColors, spec_default_fg};
use crate::frac::Frac;
use crate::render::DrawCmd;
use crate::types::{KeyCode, MouseEvent, MouseEventKind, Vec2};
use crate::ui::hue_picker::HuePicker;
use crate::ui::inputs::{Focus, Inputs, spec_commit_value, spec_field_at_row, spec_typed_buffer};
use crate::ui::sv_picker::SVPicker;
use crate::ui::value_display::draw_value_display;
use crate::utils::{check_terminal_size, hsv_from_rgb, normalize_pos, rgb_from_hsv};

verus! {

/// One of the four drawable components.
#[derive(Debug, Clone, Copy, PartialEq, Eq, Structural)]
pub enum Component {
    SVPicker,
    HuePicker,
    Inputs,
    ValueDisplay,
}

/// The outside work a key event asks the surrounding program to do.
#[derive(Debug, Clone, PartialEq, Eq)]
pub enum KeyAction {
    /// Nothing beyond the returned draw instructions.
    Nothing,
    /// Stop the event loop.
    Exit,
    /// Write this text to the system clipboard.
    Copy(String),
    /// Read the clipboard and hand the text to `apply_paste`.
    PasteRequest,
}

/// The session state: the one owner of the selected color and of all
/// component state, and the dispatcher of every input event.
#[derive(Debug, Clone, PartialEq, Eq)]
pub struct State {
    pub sv_picker: SVPicker,
    pub hue_picker: HuePicker,
    pub inputs: Inputs,
    pub offset: Vec2,
    pub term_too_small: bool,
    /// The quit key was seen; the event loop should stop.
    pub exit_requested: bool,
    /// The copy-format selector is open and consumes every keystroke.
    pub copy_mode: bool,
    /// A copy confirmation is on screen, to be cleared on the next event.
    pub copy_confirmed: bool,
    /// A paste confirmation is on screen, to be cleared on the next event.
    pub paste_confirmed: bool,
}

impl State {
    pub open spec fn wf(self) -> bool {
        &&& self.sv_picker.wf()
        &&& self.hue_picker.wf()
        &&& self.inputs.wf()
        &&& self.offset.x <= 0x8000
        &&& self.offset.y <= 0x8000
        &&& self.sv_picker.pos.x <= 0x9000 && self.sv_picker.pos.y <= 0x9000
        &&& self.hue_picker.pos.x <= 0x9000 && self.hue_picker.pos.y <= 0x9000
        &&& self.inputs.pos.x <= 0x9000 && self.inputs.pos.y <= 0x9000
    }

    /// The event hits the saturation/value grid.
    pub open spec fn spec_hits_sv(self, e: MouseEvent) -> bool {
        &&& e.column >= self.sv_picker.pos.x
        &&& e.row >= self.sv_picker.pos.y
        &&& e.column - self.sv_picker.pos.x < self.sv_picker.width
        &&& e.row - self.sv_picker.pos.y < self.sv_picker.height
    }

    /// The event hits the hue strip.
    pub open spec fn spec_hits_hue(self, e: MouseEvent) -> bool {
        &&& e.column >= self.hue_picker.pos.x
        &&& e.row >= self.hue_picker.pos.y
        &&& e.column - self.hue_picker.pos.x < self.hue_picker.width
        &&& e.row - self.hue_picker.pos.y < self.hue_picker.height
    }

    /// The event hits the input field column (including its dead rows).
    pub open spec fn spec_hits_inputs(self, e: MouseEvent) -> bool {
        &&& e.column >= self.inputs.pos.x
        &&& e.row >= self.inputs.pos.y
        &&& e.column - self.inputs.pos.x < 7
        &&& 4 <= e.row - self.inputs.pos.y <= 12
    }

    /// Builds the session around its three components; the terminal size only
    /// decides whether the layout fits.
    pub fn new(
        sv_picker: SVPicker,
        hue_picker: HuePicker,
        inputs: Inputs,
        terminal_width: u16,
        terminal_height: u16,
    ) -> (s: State)
        requires
            sv_picker.wf(),
            hue_picker.wf(),
            inputs.wf(),
            sv_picker.pos.x <= 0x9000 && sv_picker.pos.y <= 0x9000,
            hue_picker.pos.x <= 0x9000 && hue_picker.pos.y <= 0x9000,
            inputs.pos.x <= 0x9000 && inputs.pos.y <= 0x9000,
        ensures
            s.wf(),
            s.sv_picker == sv_picker,
            s.hue_picker == hue_picker,
            s.inputs == inputs,
            s.offset == (Vec2 { x: 0u32, y: 0u32 }),
            s.term_too_small == ((terminal_width as int) < TOTAL_WIDTH + 2 || (
            terminal_height as int) < TOTAL_HEIGHT + 2),
            !s.exit_requested && !s.copy_mode && !s.copy_confirmed && !s.paste_confirmed,
    {
        State {
            sv_picker,
            hue_picker,
            inputs,
            offset: Vec2::zero(),
            term_too_small: check_terminal_size(terminal_width, terminal_height),
            exit_requested: false,
            copy_mode: false,
            copy_confirmed: false,
            paste_confirmed: false,
        }
    }

    /// Centers the layout in the terminal.
    pub fn update_offset(&mut self, term_width: u16, term_height: u16)
        requires
            old(self).wf(),
        ensures
            final(self).wf(),
            final(self).offset.x == (if term_width > TOTAL_WIDTH {
                (term_width - TOTAL_WIDTH) as int / 2
            } else {
                0int
            }),
            final(self).offset.y == (if term_height > TOTAL_HEIGHT {
                (term_height - TOTAL_HEIGHT) as int / 2
            } else {
                0int
            }),
            final(self).sv_picker == old(self).sv_picker,
            final(self).hue_picker == old(self).hue_picker,
            final(self).inputs == old(self).inputs,
            final(self).term_too_small == old(self).term_too_small,
            final(self).exit_requested == old(self).exit_requested,
            final(self).copy_mode == old(self).copy_mode,
            final(self).copy_confirmed == old(self).copy_confirmed,
            final(self).paste_confirmed == old(self).paste_confirmed,
    {
        let w = term_width as u32;
        let h = term_height as u32;
        let x = if w > TOTAL_WIDTH {
            (w - TOTAL_WIDTH) / 2
        } else {
            0
        };
        let y = if h > TOTAL_HEIGHT {
            (h - TOTAL_HEIGHT) / 2
        } else {
            0
        };
        self.offset = Vec2 { x, y };
    }

    /// Moves every component to its layout position shifted by the offset.
    pub fn offset_all(&mut self)
        requires
            old(self).wf(),
        ensures
            final(self).wf(),
            final(self).sv_picker.pos.x == SV_PICKER_REL_X + old(self).offset.x,
            final(self).sv_picker.pos.y == SV_PICKER_REL_Y + old(self).offset.y,
            final(self).hue_picker.pos.x == HUE_PICKER_REL_X + old(self).offset.x,
            final(self).hue_picker.pos.y == HUE_PICKER_REL_Y + old(self).offset.y,
            final(self).inputs.pos.x == INPUTS_REL_X + old(self).offset.x,
            final(self).inputs.pos.y == INPUTS_REL_Y + old(self).offset.y,
            final(self).sv_picker.selected_color == old(self).sv_picker.selected_color,
            final(self).inputs.focus == old(self).inputs.focus,
            final(self).inputs.input_str == old(self).inputs.input_str,
            final(self).inputs.modified == old(self).inputs.modified,
            final(self).offset == old(self).offset,
            final(self).exit_requested == old(self).exit_requested,
            final(self).copy_mode == old(self).copy_mode,
            final(self).copy_confirmed == old(self).copy_confirmed,
            final(self).paste_confirmed == old(self).paste_confirmed,
            final(self).term_too_small == old(self).term_too_small,
            final(self).sv_picker.width == old(self).sv_picker.width && final(self).sv_picker.height == old(self).sv_picker.height,
            final(self).hue_picker.width == old(self).hue_picker.width && final(self).hue_picker.height == old(self).hue_picker.height,
    {
        self.inputs.pos = inputs_rel_pos().plus(self.offset);
        self.sv_picker.pos = sv_picker_rel_pos().plus(self.offset);
        self.hue_picker.pos = hue_picker_rel_pos().plus(self.offset);
    }

    /// The length of the grid's draw stream.
    pub open spec fn spec_sv_draw_len(self) -> int {
        2 + self.sv_picker.height * (2 * self.sv_picker.width + 2)
    }

    /// The length of the strip's draw stream.
    pub open spec fn spec_hue_draw_len(self) -> int {
        2 + 4 * self.hue_picker.height
    }

    /// The draw instructions for the whole interface: the grid, the strip,
    /// the value display and the input column, in that order.  Each segment
    /// starts at its component's position, the grid and strip segments carry
    /// the exact gradient samples, and the display and field segments carry
    /// the color's exact formatted texts.
    #[verifier::rlimit(60)]
    pub fn draw(&self, fade: bool) -> (cmds: Vec<DrawCmd>)
        requires
            self.wf(),
        ensures
            cmds@.len() == self.spec_sv_draw_len() + self.spec_hue_draw_len() + 14 + 36,
            cmds@[0] == DrawCmd::MoveTo(
                self.sv_picker.pos.x as u16,
                self.sv_picker.pos.y as u16,
            ),
            forall|y: int, x: int|
                0 <= y < self.sv_picker.height && 0 <= x < self.sv_picker.width
                    ==> #[trigger] cmds@[1 + y * (2 * self.sv_picker.width + 2) + 2 * x]
                    == DrawCmd::SetColors(
                    spec_rendered_rgb(self.sv_picker.spec_cell_bottom(x, y), fade),
                    spec_rendered_rgb(self.sv_picker.spec_cell_top(x, y), fade),
                ),
            cmds@[self.spec_sv_draw_len()] == DrawCmd::MoveTo(
                self.hue_picker.pos.x as u16,
                self.hue_picker.pos.y as u16,
            ),
            forall|y: int|
                0 <= y < self.hue_picker.height ==> #[trigger] cmds@[self.spec_sv_draw_len() + 1
                    + 4 * y] == DrawCmd::SetColors(
                    spec_rendered_rgb(self.hue_picker.spec_half_cell_color(2 * y + 1), fade),
                    spec_rendered_rgb(self.hue_picker.spec_half_cell_color(2 * y), fade),
                ),
            cmds@[self.spec_sv_draw_len() + self.spec_hue_draw_len()] == DrawCmd::MoveTo(
                self.offset.x as u16,
                self.offset.y as u16,
            ),
            cmds@[self.spec_sv_draw_len() + self.spec_hue_draw_len() + 7] matches DrawCmd::Print(
                t,
            ) && t@ == spec_hex_text(self.sv_picker.selected_color),
            cmds@[self.spec_sv_draw_len() + self.spec_hue_draw_len() + 10] matches DrawCmd::Print(
                t,
            ) && t@ == spec_rgb_triple_text(self.sv_picker.selected_color),
            cmds@[self.spec_sv_draw_len() + self.spec_hue_draw_len() + 13] matches DrawCmd::Print(
                t,
            ) && t@ == spec_hsv_triple_text(self.sv_picker.selected_color),
            cmds@[self.spec_sv_draw_len() + self.spec_hue_draw_len() + 14] == DrawCmd::MoveTo(
                self.inputs.pos.x as u16,
                self.inputs.pos.y as u16,
            ),
            forall|f: Focus|
                f != Focus::NONE ==> ((#[trigger] cmds@[self.spec_sv_draw_len()
                    + self.spec_hue_draw_len() + 14 + spec_field_line_index(f)])
                    matches DrawCmd::Print(t) && t@ == spec_focus_prefix(f) + spec_prefill(
                    f,
                    self.sv_picker.selected_color,
                )),
    {
        let mut cmds = self.sv_picker.draw(fade);
        let ghost sv_cmds = cmds@;
        let mut hue = self.hue_picker.draw(fade);
        let ghost hue_cmds = hue@;
        cmds.append(&mut hue);
        let mut vd = draw_value_display(
            &value_display_rel_pos().plus(self.offset),
            &self.sv_picker.selected_color,
            fade,
        );
        let ghost vd_cmds = vd@;
        cmds.append(&mut vd);
        let mut inp = self.inputs.draw(&self.sv_picker.selected_color, fade);
        let ghost inp_cmds = inp@;
        cmds.append(&mut inp);
        proof {
            let n1 = self.spec_sv_draw_len();
            let n2 = self.spec_hue_draw_len();
            assert(cmds@ == sv_cmds + hue_cmds + vd_cmds + inp_cmds);
            assert forall|y: int, x: int|
                0 <= y < self.sv_picker.height && 0 <= x < self.sv_picker.width
                    implies #[trigger] cmds@[1 + y * (2 * self.sv_picker.width + 2) + 2 * x]
                    == DrawCmd::SetColors(
                    spec_rendered_rgb(self.sv_picker.spec_cell_bottom(x, y), fade),
                    spec_rendered_rgb(self.sv_picker.spec_cell_top(x, y), fade),
                ) by {
                assert((y + 1) * (2 * self.sv_picker.width + 2) <= self.sv_picker.height * (2
                    * self.sv_picker.width + 2)) by (nonlinear_arith)
                    requires
                        y + 1 <= self.sv_picker.height,
                        self.sv_picker.width >= 0,
                ;
                assert((y + 1) * (2 * self.sv_picker.width + 2) == y * (2 * self.sv_picker.width
                    + 2) + 2 * self.sv_picker.width + 2) by (nonlinear_arith);
                assert(cmds@[1 + y * (2 * self.sv_picker.width + 2) + 2 * x] == sv_cmds[1 + y * (
                2 * self.sv_picker.width + 2) + 2 * x]);
            }
            assert forall|y: int|
                0 <= y < self.hue_picker.height implies #[trigger] cmds@[n1 + 1 + 4 * y]
                    == DrawCmd::SetColors(
                    spec_rendered_rgb(self.hue_picker.spec_half_cell_color(2 * y + 1), fade),
                    spec_rendered_rgb(self.hue_picker.spec_half_cell_color(2 * y), fade),
                ) by {
                assert(cmds@[n1 + 1 + 4 * y] == hue_cmds[1 + 4 * y]);
            }
            assert(cmds@[n1 + n2] == vd_cmds[0]);
            assert(cmds@[n1 + n2 + 7] == vd_cmds[7]);
            assert(cmds@[n1 + n2 + 10] == vd_cmds[10]);
            assert(cmds@[n1 + n2 + 13] == vd_cmds[13]);
            assert forall|f: Focus|
                f != Focus::NONE implies ((#[trigger] cmds@[n1 + n2 + 14 + spec_field_line_index(
                f,
            )]) matches DrawCmd::Print(t) && t@ == spec_focus_prefix(f) + spec_prefill(
                f,
                self.sv_picker.selected_color,
            )) by {
                assert(cmds@[n1 + n2 + 14 + spec_field_line_index(f)] == inp_cmds[
                    spec_field_line_index(f)]);
            }
        }
        cmds
    }

    /// The draw instructions for one component, with the same content as the
    /// matching segment of `draw`.
    pub fn draw_component(&self, component: Component, fade: bool) -> (cmds: Vec<DrawCmd>)
        requires
            self.wf(),
        ensures
            cmds@.len() > 0,
            match component {
                Component::SVPicker => {
                    &&& cmds@.len() == self.spec_sv_draw_len()
                    &&& cmds@[0] == DrawCmd::MoveTo(
                        self.sv_picker.pos.x as u16,
                        self.sv_picker.pos.y as u16,
                    )
                    &&& forall|y: int, x: int|
                        0 <= y < self.sv_picker.height && 0 <= x < self.sv_picker.width
                            ==> #[trigger] cmds@[1 + y * (2 * self.sv_picker.width + 2) + 2 * x]
                            == DrawCmd::SetColors(
                            spec_rendered_rgb(self.sv_picker.spec_cell_bottom(x, y), fade),
                            spec_rendered_rgb(self.sv_picker.spec_cell_top(x, y), fade),
                        )
                },
                Component::HuePicker => {
                    &&& cmds@.len() == self.spec_hue_draw_len()
                    &&& cmds@[0] == DrawCmd::MoveTo(
                        self.hue_picker.pos.x as u16,
                        self.hue_picker.pos.y as u16,
                    )
                    &&& forall|y: int|
                        0 <= y < self.hue_picker.height ==> #[trigger] cmds@[1 + 4 * y]
                            == DrawCmd::SetColors(
                            spec_rendered_rgb(
                                self.hue_picker.spec_half_cell_color(2 * y + 1),
                                fade,
                            ),
                            spec_rendered_rgb(self.hue_picker.spec_half_cell_color(2 * y), fade),
                        )
                },
                Component::Inputs => {
                    &&& cmds@.len() == 36
                    &&& cmds@[0] == DrawCmd::MoveTo(
                        self.inputs.pos.x as u16,
                        self.inputs.pos.y as u16,
                    )
                    &&& forall|f: Focus|
                        f != Focus::NONE ==> ((#[trigger] cmds@[spec_field_line_index(f)])
                            matches DrawCmd::Print(t) && t@ == spec_focus_prefix(f)
                            + spec_prefill(f, self.sv_picker.selected_color))
                },
                Component::ValueDisplay => {
                    &&& cmds@.len() == 14
                    &&& cmds@[0] == DrawCmd::MoveTo(self.offset.x as u16, self.offset.y as u16)
                    &&& (cmds@[7] matches DrawCmd::Print(t) && t@ == spec_hex_text(
                        self.sv_picker.selected_color,
                    ))
                    &&& (cmds@[10] matches DrawCmd::Print(t) && t@ == spec_rgb_triple_text(
                        self.sv_picker.selected_color,
                    ))
                    &&& (cmds@[13] matches DrawCmd::Print(t) && t@ == spec_hsv_triple_text(
                        self.sv_picker.selected_color,
                    ))
                },
            },
    {
        match component {
            Component::SVPicker => self.sv_picker.draw(fade),
            Component::HuePicker => self.hue_picker.draw(fade),
            Component::Inputs => self.inputs.draw(&self.sv_picker.selected_color, fade),
            Component::ValueDisplay => draw_value_display(
                &value_display_rel_pos().plus(self.offset),
                &self.sv_picker.selected_color,
                fade,
            ),
        }
    }

    /// Reacts to a terminal resize.  When the layout no longer fits, only a
    /// centered warning line is emitted and the layout is left untouched;
    /// otherwise the layout is re-centered for the new size, every component
    /// is moved to its layout position shifted by the new offset, and the
    /// whole interface is redrawn after a clear.
    pub fn handle_resize(&mut self, x: u16, y: u16) -> (cmds: Vec<DrawCmd>)
        requires
            old(self).wf(),
        ensures
            final(self).wf(),
            final(self).term_too_small == ((x as int) < TOTAL_WIDTH + 2 || (y as int)
                < TOTAL_HEIGHT + 2),
            final(self).sv_picker.selected_color == old(self).sv_picker.selected_color,
            final(self).inputs.focus == old(self).inputs.focus,
            final(self).inputs.input_str == old(self).inputs.input_str,
            final(self).exit_requested == old(self).exit_requested,
            final(self).copy_mode == old(self).copy_mode,
            final(self).sv_picker.width == old(self).sv_picker.width && final(self).sv_picker.height == old(self).sv_picker.height,
            final(self).hue_picker.width == old(self).hue_picker.width && final(self).hue_picker.height == old(self).hue_picker.height,
            final(self).term_too_small ==> {
                &&& final(self).offset == old(self).offset
                &&& final(self).sv_picker.pos == old(self).sv_picker.pos
                &&& final(self).hue_picker.pos == old(self).hue_picker.pos
                &&& final(self).inputs.pos == old(self).inputs.pos
                &&& cmds@.len() == 4
                &&& cmds@[1] == DrawCmd::ClearAll
                &&& (cmds@[3] matches DrawCmd::Print(s) && s@ == "Terminal too small!"@)
            },
            !final(self).term_too_small ==> {
                &&& final(self).offset.x == ((x as int) - TOTAL_WIDTH) / 2
                &&& final(self).offset.y == ((y as int) - TOTAL_HEIGHT) / 2
                &&& final(self).sv_picker.pos.x == SV_PICKER_REL_X + final(self).offset.x
                &&& final(self).sv_picker.pos.y == SV_PICKER_REL_Y + final(self).offset.y
                &&& final(self).hue_picker.pos.x == HUE_PICKER_REL_X + final(self).offset.x
                &&& final(self).hue_picker.pos.y == HUE_PICKER_REL_Y + final(self).offset.y
                &&& final(self).inputs.pos.x == INPUTS_REL_X + final(self).offset.x
                &&& final(self).inputs.pos.y == INPUTS_REL_Y + final(self).offset.y
                &&& cmds@.len() == 2 + (2 + final(self).sv_picker.height * (2 * final(self).sv_picker.width + 2)) + (2 + 4 * final(self).hue_picker.height) + 14 + 36
                &&& cmds@[0] == DrawCmd::SetColors(
                    spec_default_fg(false),
                    CustomRgb { r: 0x1du8, g: 0x1du8, b: 0x1du8 },
                )
                &&& cmds@[1] == DrawCmd::ClearAll
                &&& cmds@[2] == DrawCmd::MoveTo(
                    final(self).sv_picker.pos.x as u16,
                    final(self).sv_picker.pos.y as u16,
                )
            },
    {
        proof {
            reveal_strlit("Terminal too small!");
        }
        if check_terminal_size(x, y) {
            self.term_too_small = true;
            let mut cmds = ResetDefaultColors(false).commands();
            cmds.push(DrawCmd::ClearAll);
            let half: u16 = x / 2;
            let col: u16 = if half >= 9 {
                half - 9
            } else {
                0
            };
            cmds.push(DrawCmd::MoveTo(col, y / 2));
            cmds.push(DrawCmd::Print(String::from_str("Terminal too small!")));
            return cmds;
        }
        self.term_too_small = false;
        self.update_offset(x, y);
        self.offset_all();
        let mut cmds = ResetDefaultColors(false).commands();
        cmds.push(DrawCmd::ClearAll);
        let mut rest = self.draw(false);
        cmds.append(&mut rest);
        cmds
    }

    /// Routes a mouse event.  Each component is hit-tested independently: the
    /// grid and the strip update the color under a left press or drag, a
    /// press on an input field row focuses it, and any press that focuses no
    /// field drops the focus.  A press or drag strictly outside every
    /// component's box defocuses and leaves the selected color unchanged.
    #[verifier::rlimit(60)]
    pub fn handle_mouse_event(&mut self, event: MouseEvent) -> (cmds: Vec<DrawCmd>)
        requires
            old(self).wf(),
        ensures
            final(self).wf(),
            final(self).offset == old(self).offset,
            final(self).exit_requested == old(self).exit_requested,
            final(self).copy_mode == old(self).copy_mode,
            final(self).sv_picker.pos == old(self).sv_picker.pos,
            final(self).hue_picker.pos == old(self).hue_picker.pos,
            final(self).inputs.pos == old(self).inputs.pos,
            event.kind == MouseEventKind::Other ==> *final(self) == *old(self),
            (event.kind == MouseEventKind::DownLeft || event.kind == MouseEventKind::DragLeft)
                && !old(self).spec_hits_sv(event) && !old(self).spec_hits_hue(event) ==> final(self).sv_picker.selected_color == old(self).sv_picker.selected_color,
            (event.kind == MouseEventKind::DownLeft || event.kind == MouseEventKind::DragLeft)
                && !old(self).spec_hits_sv(event) && !old(self).spec_hits_hue(event) && !old(self).spec_hits_inputs(event) ==> final(self).inputs.focus == Focus::NONE,
            // Focus is pinned completely: only a press on a field row gains
            // it, and every other press or drag is a defocus click.
            event.kind == MouseEventKind::DragLeft ==> final(self).inputs.focus == Focus::NONE,
            event.kind == MouseEventKind::DownLeft && old(self).spec_hits_inputs(event) ==> (
            spec_field_at_row((event.row - old(self).inputs.pos.y) as int) matches Some(f)
                ==> final(self).inputs.focus == f),
            event.kind == MouseEventKind::DownLeft && !(old(self).spec_hits_inputs(event)
                && spec_field_at_row((event.row - old(self).inputs.pos.y) as int) is Some)
                ==> final(self).inputs.focus == Focus::NONE,
            // A hit on the grid selects its saturation and value there; a hit
            // on the strip selects its hue there; what is not hit is kept.
            (event.kind == MouseEventKind::DownLeft || event.kind == MouseEventKind::DragLeft)
                && old(self).spec_hits_sv(event) ==> {
                &&& final(self).sv_picker.selected_color.saturation == (Frac {
                    num: (event.column - old(self).sv_picker.pos.x) as u64,
                    den: old(self).sv_picker.width as u64,
                })
                &&& final(self).sv_picker.selected_color.value == (Frac {
                    num: (old(self).sv_picker.height - (event.row - old(self).sv_picker.pos.y)) as u64,
                    den: old(self).sv_picker.height as u64,
                })
            },
            (event.kind == MouseEventKind::DownLeft || event.kind == MouseEventKind::DragLeft)
                && old(self).spec_hits_hue(event) ==> final(self).sv_picker.selected_color.hue
                == old(self).hue_picker.spec_row_hue((event.row - old(self).hue_picker.pos.y) as int),
            (event.kind == MouseEventKind::DownLeft || event.kind == MouseEventKind::DragLeft)
                && !old(self).spec_hits_hue(event) ==> final(self).sv_picker.selected_color.hue
                == old(self).sv_picker.selected_color.hue,
            (event.kind == MouseEventKind::DownLeft || event.kind == MouseEventKind::DragLeft)
                && !old(self).spec_hits_sv(event) ==> final(self).sv_picker.selected_color.saturation
                == old(self).sv_picker.selected_color.saturation && final(self).sv_picker.selected_color.value
                == old(self).sv_picker.selected_color.value,
            // The returned instructions redraw exactly the affected parts: a
            // grid hit redraws the value display and the fields, a strip hit
            // additionally redraws the grid, and a press that gains no focus
            // hides the cursor and redraws the fields.
            event.kind == MouseEventKind::Other ==> cmds@.len() == 0,
            (event.kind == MouseEventKind::DownLeft || event.kind == MouseEventKind::DragLeft)
                ==> {
                let svh = old(self).spec_hits_sv(event);
                let hueh = old(self).spec_hits_hue(event);
                let gained = event.kind == MouseEventKind::DownLeft && old(self).spec_hits_inputs(
                    event,
                ) && spec_field_at_row((event.row - old(self).inputs.pos.y) as int) is Some;
                let a: int = if svh {
                    50
                } else {
                    0
                };
                let b: int = if hueh {
                    50 + old(self).spec_sv_draw_len()
                } else {
                    0
                };
                &&& cmds@.len() == a + b + (if gained {
                    5int
                } else {
                    37int
                })
                &&& (svh ==> cmds@[0] == DrawCmd::MoveTo(
                    old(self).offset.x as u16,
                    old(self).offset.y as u16,
                ) && cmds@[14] == DrawCmd::MoveTo(
                    old(self).inputs.pos.x as u16,
                    old(self).inputs.pos.y as u16,
                ))
                &&& (hueh ==> cmds@[a] == DrawCmd::MoveTo(
                    old(self).offset.x as u16,
                    old(self).offset.y as u16,
                ) && cmds@[a + 14] == DrawCmd::MoveTo(
                    old(self).inputs.pos.x as u16,
                    old(self).inputs.pos.y as u16,
                ) && cmds@[a + 50] == DrawCmd::MoveTo(
                    old(self).sv_picker.pos.x as u16,
                    old(self).sv_picker.pos.y as u16,
                ))
                &&& (!gained ==> cmds@[a + b] == DrawCmd::HideCursor && cmds@[a + b + 1]
                    == DrawCmd::MoveTo(
                    old(self).inputs.pos.x as u16,
                    old(self).inputs.pos.y as u16,
                ))
                &&& (gained ==> cmds@[a + b + 1] == DrawCmd::ShowCursor)
            },
    {
        let mut cmds: Vec<DrawCmd> = Vec::new();
        if !(matches!(event.kind, MouseEventKind::DownLeft) || matches!(
            event.kind,
            MouseEventKind::DragLeft,
        )) {
            return cmds;
        }
        if let Some(p) = normalize_pos(&event, &self.sv_picker.pos) {
            if self.sv_picker.change_color(p.x, p.y).is_ok() {
                let mut vd = self.draw_component(Component::ValueDisplay, false);
                cmds.append(&mut vd);
                let mut inp = self.draw_component(Component::Inputs, false);
                cmds.append(&mut inp);
            }
        }
        if let Some(p) = normalize_pos(&event, &self.hue_picker.pos) {
            if let Ok(hue) = self.hue_picker.get(p.x, p.y) {
                self.sv_picker.set_hue(hue);
                let mut vd = self.draw_component(Component::ValueDisplay, false);
                cmds.append(&mut vd);
                let mut inp = self.draw_component(Component::Inputs, false);
                cmds.append(&mut inp);
                let mut sv = self.draw_component(Component::SVPicker, false);
                cmds.append(&mut sv);
            }
        }
        let mut focused = false;
        if let Some(p) = normalize_pos(&event, &self.inputs.pos) {
            if self.inputs.mouse_click(p.x, p.y).is_ok() && !matches!(
                event.kind,
                MouseEventKind::DragLeft,
            ) {
                self.inputs.gain_focus(&self.sv_picker.get_current());
                let mut echo = self.inputs.render_input_echo();
                cmds.append(&mut echo);
                focused = true;
            }
        }
        if !focused {
            let _ = self.inputs.lose_focus();
            cmds.push(DrawCmd::HideCursor);
            let mut inp = self.draw_component(Component::Inputs, false);
            cmds.append(&mut inp);
        }
        cmds
    }
}

impl State {
    /// The color a committed field value produces: a hex commit replaces the
    /// whole color, an R/G/B commit replaces one channel (clamped to 255) of
    /// the current RGB rendering, an H commit sets the hue in degrees modulo
    /// 360, and an S or V commit sets that component in percent (clamped to
    /// 100).  An unparsable buffer committed the value zero upstream.
    pub open spec fn spec_commit_color(old_color: Hsv, focus: Focus, v: int) -> Hsv {
        let rgb = spec_rgb_from_hsv(old_color);
        match focus {
            Focus::Hex => spec_hsv_from_rgb(
                ((v / 0x10000) % 0x100) as u8,
                ((v / 0x100) % 0x100) as u8,
                (v % 0x100) as u8,
            ),
            Focus::R => spec_hsv_from_rgb((if v < 255 { v } else { 255int }) as u8, rgb.1, rgb.2),
            Focus::G => spec_hsv_from_rgb(rgb.0, (if v < 255 { v } else { 255int }) as u8, rgb.2),
            Focus::B => spec_hsv_from_rgb(rgb.0, rgb.1, (if v < 255 { v } else { 255int }) as u8),
            Focus::H => Hsv {
                hue: Frac { num: (v % 360) as u64, den: 1u64 },
                saturation: old_color.saturation,
                value: old_color.value,
            },
            Focus::S => Hsv {
                hue: old_color.hue,
                saturation: Frac { num: (if v < 100 { v } else { 100int }) as u64, den: 100u64 },
                value: old_color.value,
            },
            Focus::V => Hsv {
                hue: old_color.hue,
                saturation: old_color.saturation,
                value: Frac { num: (if v < 100 { v } else { 100int }) as u64, den: 100u64 },
            },
            Focus::NONE => old_color,
        }
    }

    /// Routes a keystroke.  When the copy-format selector is open it consumes
    /// the keystroke exclusively; otherwise the global keys are checked first
    /// (quit, open the selector, paste), and everything else goes to the
    /// input field set, whose committed values update the color.
    pub fn handle_key_event(&mut self, event: KeyCode) -> (r: (KeyAction, Vec<DrawCmd>))
        requires
            old(self).wf(),
        ensures
            final(self).wf(),
            final(self).offset == old(self).offset,
            final(self).term_too_small == old(self).term_too_small,
            final(self).sv_picker.pos == old(self).sv_picker.pos,
            final(self).hue_picker.pos == old(self).hue_picker.pos,
            final(self).inputs.pos == old(self).inputs.pos,
            old(self).copy_mode ==> {
                &&& final(self).copy_mode == false
                &&& final(self).copy_confirmed == true
                &&& final(self).sv_picker.selected_color == old(self).sv_picker.selected_color
                &&& final(self).inputs == old(self).inputs
                &&& final(self).exit_requested == old(self).exit_requested
                &&& (event == KeyCode::Char('x') ==> (r.0 matches KeyAction::Copy(s) && s@
                    == spec_hex_text(old(self).sv_picker.selected_color)))
                &&& (event == KeyCode::Char('r') ==> (r.0 matches KeyAction::Copy(s) && s@
                    == spec_rgb_text(old(self).sv_picker.selected_color)))
                &&& (event == KeyCode::Char('h') ==> (r.0 matches KeyAction::Copy(s) && s@
                    == spec_hsv_text(old(self).sv_picker.selected_color)))
                &&& (event != KeyCode::Char('x') && event != KeyCode::Char('r') && event
                    != KeyCode::Char('h') ==> r.0 == KeyAction::Nothing)
            },
            !old(self).copy_mode ==> {
                &&& (event == KeyCode::Char('q') || event == KeyCode::Esc) ==> {
                    &&& r.0 == KeyAction::Exit
                    &&& final(self).exit_requested == true
                    &&& final(self).sv_picker.selected_color == old(self).sv_picker.selected_color
                    &&& final(self).inputs == old(self).inputs
                }
                &&& (event == KeyCode::Char('y') ==> r.0 == KeyAction::Nothing && final(self).copy_mode == true && final(self).sv_picker.selected_color == old(self).sv_picker.selected_color && final(self).inputs == old(self).inputs)
                &&& (event == KeyCode::Char('p') ==> r.0 == KeyAction::PasteRequest)
                &&& (event != KeyCode::Char('q') && event != KeyCode::Esc && event
                    != KeyCode::Char('y') ==> {
                    &&& (old(self).inputs.focus == Focus::NONE ==> final(self).inputs.focus
                        == Focus::NONE && final(self).inputs.input_str == old(self).inputs.input_str && final(self).sv_picker.selected_color == old(self).sv_picker.selected_color)
                    &&& (old(self).inputs.focus != Focus::NONE ==> match event {
                        KeyCode::Enter => final(self).inputs.focus == Focus::NONE && final(self).inputs.modified == false && final(self).sv_picker.selected_color
                            == State::spec_commit_color(
                            old(self).sv_picker.selected_color,
                            old(self).inputs.focus,
                            spec_commit_value(
                                old(self).inputs.input_str@,
                                old(self).inputs.focus == Focus::Hex,
                            ),
                        ),
                        KeyCode::Backspace => final(self).inputs.focus == old(self).inputs.focus
                            && final(self).inputs.input_str@ == (if old(self).inputs.input_str@.len() > 0 {
                            old(self).inputs.input_str@.drop_last()
                        } else {
                            old(self).inputs.input_str@
                        }) && final(self).sv_picker.selected_color == old(self).sv_picker.selected_color,
                        KeyCode::Char(c) => final(self).inputs.focus == old(self).inputs.focus
                            && final(self).inputs.input_str@ == spec_typed_buffer(
                            old(self).inputs.input_str@,
                            old(self).inputs.modified,
                            c,
                            old(self).inputs.focus,
                        ) && final(self).sv_picker.selected_color == old(self).sv_picker.selected_color,
                        KeyCode::Other => final(self).inputs == old(self).inputs && final(self).sv_picker.selected_color == old(self).sv_picker.selected_color,
                        KeyCode::Esc => true,
                    })
                })
            },
            // The returned instructions match the branch taken: closing the
            // selector blanks it and confirms, opening it draws it, a commit
            // redraws everything, any other edit echoes the buffer, and an
            // unfocused keystroke redraws the fields with the cursor hidden.
            old(self).copy_mode ==> {
                &&& r.1@.len() == 17
                &&& r.1@[1] == DrawCmd::MoveTo(
                    (INPUTS_REL_X + old(self).offset.x) as u16,
                    (2 + SV_PICKER_HEIGHT - COPY_FORMAT_SELECTOR_HEIGHT + old(
                    self,
                ).offset.y) as u16,
                )
                &&& (r.1@[16] matches DrawCmd::PrintBold(t) && t@
                    == "Copied to clipboard!"@)
            },
            !old(self).copy_mode ==> {
                &&& ((event == KeyCode::Char('q') || event == KeyCode::Esc) ==> r.1@.len() == 0)
                &&& (event == KeyCode::Char('y') ==> r.1@.len() == 19 && (r.1@[8]
                    matches DrawCmd::Print(t) && t@ == spec_hex_text(
                    old(self).sv_picker.selected_color,
                )) && (r.1@[13] matches DrawCmd::Print(t) && t@ == spec_rgb_text(
                    old(self).sv_picker.selected_color,
                )) && (r.1@[18] matches DrawCmd::Print(t) && t@ == spec_hsv_text(
                    old(self).sv_picker.selected_color,
                )))
                &&& (event != KeyCode::Char('q') && event != KeyCode::Esc && event
                    != KeyCode::Char('y') ==> {
                    &&& (old(self).inputs.focus == Focus::NONE ==> r.1@.len() == 37
                        && r.1@[0] == DrawCmd::MoveTo(
                        old(self).inputs.pos.x as u16,
                        old(self).inputs.pos.y as u16,
                    ) && r.1@[36] == DrawCmd::HideCursor)
                    &&& (old(self).inputs.focus != Focus::NONE && event == KeyCode::Enter
                        ==> r.1@.len() == old(self).spec_sv_draw_len() + old(
                        self,
                    ).spec_hue_draw_len() + 50 && r.1@[0] == DrawCmd::MoveTo(
                        old(self).sv_picker.pos.x as u16,
                        old(self).sv_picker.pos.y as u16,
                    ))
                    &&& (old(self).inputs.focus != Focus::NONE && event != KeyCode::Enter
                        && event != KeyCode::Esc ==> r.1@.len() == 5 && r.1@[1]
                        == DrawCmd::ShowCursor && (r.1@[4] matches DrawCmd::Print(t) && t@
                        == final(self).inputs.input_str@))
                })
            },
    {
        if self.copy_mode {
            let copy = handle_copy_input_format_selection_input(
                event,
                &self.sv_picker.get_current(),
            );
            self.copy_mode = false;
            let sel_pos = copy_format_selector_rel_pos().plus(self.offset);
            let mut cmds = clear_clipboard_format_selector(sel_pos);
            let mut conf = draw_copied_confirmation(sel_pos, false);
            cmds.append(&mut conf);
            self.copy_confirmed = true;
            let action = match copy {
                Some(text) => KeyAction::Copy(text),
                None => KeyAction::Nothing,
            };
            return (action, cmds);
        }
        if matches!(event, KeyCode::Esc) || event == KeyCode::Char('q') {
            self.exit_requested = true;
            return (KeyAction::Exit, Vec::new());
        }
        if event == KeyCode::Char('y') {
            let sel_pos = copy_format_selector_rel_pos().plus(self.offset);
            let cmds = draw_clipboard_format_selector(
                sel_pos,
                &self.sv_picker.get_current(),
                false,
            );
            self.copy_mode = true;
            return (KeyAction::Nothing, cmds);
        }
        let action = if event == KeyCode::Char('p') {
            KeyAction::PasteRequest
        } else {
            KeyAction::Nothing
        };
        match self.inputs.value_input(event) {
            Some((focus, value)) => {
                proof {
                    crate::ui::inputs::lemma_commit_value_bound(
                        old(self).inputs.input_str@,
                        old(self).inputs.focus == Focus::Hex,
                    );
                }
                let current = self.sv_picker.get_current();
                let rgb = rgb_from_hsv(&current);
                let committed: Hsv = match focus {
                    Focus::Hex => hsv_from_rgb(
                        ((value / 0x10000) % 0x100) as u8,
                        ((value / 0x100) % 0x100) as u8,
                        (value % 0x100) as u8,
                    ),
                    Focus::R => hsv_from_rgb(
                        (if value < 255 { value } else { 255 }) as u8,
                        rgb.1,
                        rgb.2,
                    ),
                    Focus::G => hsv_from_rgb(
                        rgb.0,
                        (if value < 255 { value } else { 255 }) as u8,
                        rgb.2,
                    ),
                    Focus::B => hsv_from_rgb(
                        rgb.0,
                        rgb.1,
                        (if value < 255 { value } else { 255 }) as u8,
                    ),
                    Focus::H => Hsv {
                        hue: Frac { num: (value % 360) as u64, den: 1 },
                        saturation: current.saturation,
                        value: current.value,
                    },
                    Focus::S => Hsv {
                        hue: current.hue,
                        saturation: Frac {
                            num: (if value < 100 { value } else { 100 }) as u64,
                            den: 100,
                        },
                        value: current.value,
                    },
                    Focus::V => Hsv {
                        hue: current.hue,
                        saturation: current.saturation,
                        value: Frac {
                            num: (if value < 100 { value } else { 100 }) as u64,
                            den: 100,
                        },
                    },
                    Focus::NONE => current,
                };
                self.sv_picker.change_selected(committed);
                let cmds = self.draw(false);
                (action, cmds)
            },
            None => {
                if self.inputs.focus == Focus::NONE {
                    let _ = self.inputs.lose_focus();
                    let mut cmds = self.draw_component(Component::Inputs, false);
                    cmds.push(DrawCmd::HideCursor);
                    (action, cmds)
                } else {
                    let cmds = self.inputs.render_input_echo();
                    (action, cmds)
                }
            },
        }
    }

    /// Decodes pasted text; on success it becomes the selected color and the
    /// whole interface is redrawn with a confirmation.  Unrecognized text
    /// changes nothing.
    pub fn apply_paste(&mut self, text: &str) -> (r: (bool, Vec<DrawCmd>))
        requires
            old(self).wf(),
        ensures
            final(self).wf(),
            r.0 <==> (hex_matches(text@) || rgb_parse(text@) is Some || hsv_parse(
                text@,
            ) is Some),
            !r.0 ==> *final(self) == *old(self),
            r.0 ==> final(self).paste_confirmed == true,
            hex_matches(text@) ==> final(self).sv_picker.selected_color == spec_hsv_from_rgb(
                spec_hex_rgb(text@).0 as u8,
                spec_hex_rgb(text@).1 as u8,
                spec_hex_rgb(text@).2 as u8,
            ),
            !hex_matches(text@) ==> (rgb_parse(text@) matches Some(t) ==> final(self).sv_picker.selected_color == spec_hsv_from_rgb(t.0 as u8, t.1 as u8, t.2 as u8)),
            !hex_matches(text@) && rgb_parse(text@) is None ==> (hsv_parse(text@) matches Some(t)
                ==> {
                let c = final(self).sv_picker.selected_color;
                &&& c.hue.num * t.0.1 == t.0.0 * c.hue.den
                &&& c.saturation.num * t.1.1 == t.1.0 * c.saturation.den
                &&& c.value.num * t.2.1 == t.2.0 * c.value.den
            }),
            final(self).inputs == old(self).inputs,
            final(self).offset == old(self).offset,
            final(self).exit_requested == old(self).exit_requested,
            final(self).copy_mode == old(self).copy_mode,
    {
        match validate_pasted_color(text) {
            Some(color) => {
                self.sv_picker.change_selected(color);
                let mut cmds = self.draw(false);
                let sel_pos = copy_format_selector_rel_pos().plus(self.offset);
                let mut conf = draw_pasted_confirmation(sel_pos, false);
                cmds.append(&mut conf);
                self.paste_confirmed = true;
                (true, cmds)
            },
            None => (false, Vec::new()),
        }
    }

    /// Blanks a shown copy or paste confirmation and clears its flags: the
    /// returned commands blank the selector rectangle the confirmation was
    /// drawn in.
    pub fn clear_confirmations(&mut self) -> (cmds: Vec<DrawCmd>)
        requires
            old(self).wf(),
        ensures
            final(self).wf(),
            final(self).copy_confirmed == false,
            final(self).paste_confirmed == false,
            final(self).sv_picker == old(self).sv_picker,
            final(self).hue_picker == old(self).hue_picker,
            final(self).inputs == old(self).inputs,
            final(self).offset == old(self).offset,
            final(self).exit_requested == old(self).exit_requested,
            final(self).copy_mode == old(self).copy_mode,
            final(self).term_too_small == old(self).term_too_small,
            cmds@.len() == 14,
            cmds@[0] == DrawCmd::SetColors(
                spec_default_fg(false),
                CustomRgb { r: 0x1du8, g: 0x1du8, b: 0x1du8 },
            ),
            cmds@[1] == DrawCmd::MoveTo(
                (INPUTS_REL_X + old(self).offset.x) as u16,
                (2 + SV_PICKER_HEIGHT - COPY_FORMAT_SELECTOR_HEIGHT + old(self).offset.y) as u16,
            ),
            forall|i: int|
                0 <= i < 4 ==> ((#[trigger] cmds@[2 + 3 * i]) matches DrawCmd::Print(s) && s@
                    == crate::text::spec_repeat(' ', COPY_FORMAT_SELECTOR_WIDTH as int)),
    {
        self.copy_confirmed = false;
        self.paste_confirmed = false;
        clear_clipboard_format_selector(copy_format_selector_rel_pos().plus(self.offset))
    }
}

/// The layout positions, as plain constants for the contracts above.
pub const SV_PICKER_REL_X: u32 = 0;
pub const SV_PICKER_REL_Y: u32 = 2;
pub const HUE_PICKER_REL_X: u32 = SV_PICKER_WIDTH + 3;
pub const HUE_PICKER_REL_Y: u32 = 2;
pub const INPUTS_REL_X: u32 = SV_PICKER_WIDTH + 3 + HUE_PICKER_WIDTH + 3;
pub const INPUTS_REL_Y: u32 = 2;

} // verus!
