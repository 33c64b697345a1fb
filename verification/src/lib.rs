pub mod adder;
pub mod arrays;
pub mod cacher;
pub mod config;
pub mod counter;
pub mod workout;
