pub mod eeprom;
pub mod i2c;
pub mod timer;
