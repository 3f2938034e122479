pub mod hdraw;
