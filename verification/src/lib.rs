#![allow(non_snake_case)]
#![allow(non_camel_case_types)]

pub mod atmega328p;
pub mod clock;
pub mod cpu;
pub mod encoder;
pub mod instruction;
pub mod interrupt;
pub mod peripheral;
pub mod port;
pub mod program;
pub mod runner;
pub mod stepper;
pub mod usart;
pub mod consistency;
