pub mod cpy;
pub mod dispatch;
pub mod exit_code;
pub mod paths;
pub mod pst;
pub mod text;
