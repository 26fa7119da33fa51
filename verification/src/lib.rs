pub mod bridge;
pub mod hex;
pub mod rate;
pub mod trace;
