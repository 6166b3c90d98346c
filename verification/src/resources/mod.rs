pub mod pr_summary;
