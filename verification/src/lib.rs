//! Domain logic of the DataCollector service: feeds, the encrypted data items
//! they produce and the views derived from them.
//!
//! Everything here is plain computation over plain values. Bus, database and
//! sibling services stay outside; their answers come in as arguments and what
//! has to be sent to them goes out as values.

pub mod certificate;
pub mod constants;
pub mod data_mongodb;
pub mod domain_manager;
pub mod file_maintenance;
pub mod keymaster;
pub mod messages;
pub mod messages_commands;
pub mod messages_events;
pub mod messages_requests;
pub mod messages_ticker;
pub mod paging;
pub mod reply;
pub mod setup_mongodb;
pub mod setup_queues;
pub mod store;
pub mod text;
pub mod transactions;
pub mod transactions_struct;
