//! Display-side buffers and the pixel encoding sent to the panel.

pub mod framebuffer;
pub mod qspi_bus;
