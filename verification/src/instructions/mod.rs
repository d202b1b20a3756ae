pub mod initialize_fundraiser;
pub mod donate;
pub mod withdraw;
pub mod process_refunds;
