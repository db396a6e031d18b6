pub mod connection;
pub mod network;
pub mod propmap;
