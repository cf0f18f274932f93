pub mod frame;
pub mod startup;
pub mod themes;
