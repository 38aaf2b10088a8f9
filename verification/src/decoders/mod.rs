pub mod pump_swap;
pub mod dynamic_curve;
pub mod heaven;
pub mod raydium_launchpad;
