pub mod commit;
pub mod comparison;
pub mod error;
