//! Screen logic: colors, watch face, launcher, pages, keyboard.

pub mod color;
pub mod t9_keyboard;
pub mod watchface;
pub mod launcher;
pub mod pages;
pub mod segments;
