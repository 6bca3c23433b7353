//! Sans-I/O core of an AMQP 0-9-1 client: connection and channel state
//! machines, reply matching, publisher confirms and content assembly.

pub mod acknowledgement;
pub mod api;
pub mod channel;
pub mod configuration;
pub mod connection;
pub mod consumer;
pub mod error;
pub mod frames;
pub mod id_sequence;
pub mod message;
pub mod protocol;
pub mod queue;
pub mod returned_messages;
pub mod stream;
pub mod words;
