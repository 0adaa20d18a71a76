pub mod mediautils;
pub mod msgutils;
