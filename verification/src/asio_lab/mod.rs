//! The bench on which ASIO drivers are tried out.

pub mod bench;
pub mod measure;
pub mod modes;
pub mod sizes;
