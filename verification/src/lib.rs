pub mod channel;
pub mod drivers;
pub mod messages;
pub mod plus;
pub mod router;
