//! Pin assignments, bus addresses and panel geometry of the board.

use vstd::prelude::*;

verus! {

// QSPI display (368x448)
pub const LCD_SDIO0: u8 = 4;
pub const LCD_SDIO1: u8 = 5;
pub const LCD_SDIO2: u8 = 6;
pub const LCD_SDIO3: u8 = 7;
pub const LCD_SCLK: u8 = 11;
pub const LCD_CS: u8 = 12;
pub const LCD_WIDTH: u16 = 368;
pub const LCD_HEIGHT: u16 = 448;
pub const LCD_COL_OFFSET: u16 = 0;
pub const LCD_ROW_OFFSET: u16 = 0;
pub const LCD_TE: u8 = 13;

/// Output of the IO expander that drives the panel reset line.
pub const LCD_RESET: u8 = 0;

// I2C bus
pub const I2C_SDA: u8 = 15;
pub const I2C_SCL: u8 = 14;
pub const I2C_FREQ_HZ: u32 = 400000;

// Touch controller
pub const TP_INT: u8 = 21;
pub const TP_I2C_ADDR: u8 = 0x38;

/// Output of the IO expander that drives the touch reset line.
pub const TP_RESET: u8 = 2;

// Power and sensors on the shared I2C bus
pub const PMIC_I2C_ADDR: u8 = 0x34;
pub const IMU_I2C_ADDR: u8 = 0x6B;
pub const RTC_I2C_ADDR: u8 = 0x51;

// SD card
pub const SD_CLK: u8 = 2;
pub const SD_CMD: u8 = 1;
pub const SD_DATA: u8 = 3;

/// Output of the IO expander used as SD chip select.
pub const SD_CS: u8 = 7;

// Audio I2S
pub const I2S_MCLK: u8 = 16;
pub const I2S_SCLK: u8 = 9;
pub const I2S_LRCK: u8 = 45;
pub const I2S_DOUT: u8 = 8;
pub const I2S_DIN: u8 = 10;
pub const PA_CTRL: u8 = 46;

// IO expander
pub const EXIO_I2C_ADDR: u8 = 0x20;
pub const DSI_PWR_EN: u8 = 1;

} // verus!
