pub mod contract;
pub mod error;
pub mod expiration;
pub mod laws;
pub mod message_laws;
pub mod msg;
pub mod order;
pub mod outside;
pub mod page_laws;
pub mod part_laws;
pub mod proposal;
pub mod query;
pub mod reading_laws;
pub mod records;
pub mod rule_laws;
pub mod state;
pub mod table;
pub mod text;
pub mod threshold;
pub mod token;
pub mod view_laws;
pub mod views;
