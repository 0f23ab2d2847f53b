pub mod hue_picker;
pub mod inputs;
pub mod sv_picker;
pub mod value_display;
