pub mod changed_files;
pub mod commit;
pub mod suggest;
