pub mod cpu;
pub mod nes;
