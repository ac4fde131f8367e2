pub mod consts;
pub mod util;
pub mod bits;
pub mod rom;
pub mod interface;
pub mod config;
pub mod mbc;
pub mod context;
pub mod serial;
pub mod ppu;
pub mod render;
pub mod line;
pub mod scan;
pub mod cpu;
pub mod apu;
pub mod io;
pub mod bus;
pub mod gameboy;
pub mod info;
pub mod disasm;
pub mod archive;
