pub mod filters;
pub mod ranking;
