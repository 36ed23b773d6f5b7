//! Core of a cycle-accurate emulator for a handheld 8-bit game console
//! (monochrome model and its colour successor): CPU, memory bus with
//! bank-switched cartridge mappers, scanline pixel pipeline, four-channel
//! audio synthesiser, timers, DMA, joypad and interrupt controller, all
//! clocked from one master time base.
pub mod convention;
pub mod memory;
pub mod intf;
pub mod clock;
pub mod register;
pub mod isa;
pub mod cpu;
pub mod hram;
pub mod wram;
pub mod serial;
pub mod speed;
pub mod timer;
pub mod joypad;
pub mod dma;
pub mod cartridge;
pub mod frame;
pub mod gpu;
pub mod render;
pub mod blip;
pub mod apu;
pub mod mmunit;
pub mod rtc;
pub mod motherboard;
pub mod keyboard;
pub mod window;
