pub mod datapages;
pub mod display;
