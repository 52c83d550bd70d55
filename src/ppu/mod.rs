pub mod background;
pub mod colors;
pub mod foreground;
pub mod memory;
pub mod oam;
pub mod ppu;
pub mod registers;
pub mod sprites;
pub mod utils;
