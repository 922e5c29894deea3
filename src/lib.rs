pub mod codec;
pub mod catalog;
pub mod dispatch;
pub mod delivery;
