pub mod datapages;
pub mod msg_handler;
