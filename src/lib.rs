pub mod error;
pub mod governance;
pub mod laws;
pub mod program;
pub mod remix;
pub mod state;
