pub mod bgcnt;
pub mod blending;
pub mod dispcnt;
pub mod dispstat;
pub mod dma;
pub mod tmcnt;
pub mod window;
