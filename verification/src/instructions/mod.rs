pub mod distribute_fees;
pub mod initialize_honorary_position;
pub mod initialize_policy;
pub mod initialize_progress;
pub mod update_policy;
