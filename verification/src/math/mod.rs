pub mod binary64;
pub mod controllers;
pub mod filter;
pub mod geometry;
pub mod util;
