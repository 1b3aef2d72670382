//! Sans-I/O core of a queue consumer that stores each campaign message and
//! detects, once per campaign, the moment its last expected message arrived.
//!
//! Every decision lives here as a function from plain values to plain values;
//! the sockets, the drivers and the runtime belong to the program around it.

pub mod clock;
pub mod consume_messages;
pub mod counter;
pub mod http_adapter;
pub mod json;
pub mod message;
pub mod model;
pub mod mongodb_adapter;
pub mod rabbitmq_adapter;
pub mod redis_adapter;
