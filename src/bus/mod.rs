pub mod cpu_bus;
pub mod mapper;
pub mod ppu_bus;
pub mod utils;
