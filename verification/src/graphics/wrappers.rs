pub mod oam;
pub mod tile;
