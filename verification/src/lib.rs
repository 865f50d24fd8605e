//! A client library for the Concord API: the request, header, reply and
//! correlation logic of its REST and websocket clients, with contracts.

pub mod text;
pub mod bindings;
pub mod error;
pub mod model;
pub mod api_client;
pub mod queue_client;
