//! Core of a terminal SMS chat client: the conversation store, the key-driven
//! state machine around it, and the requests it hands to the messaging API.

pub mod clock;
pub mod contact;
pub mod gateway;
pub mod input;
pub mod listener;
pub mod load_creds;
pub mod selection;
pub mod store;
pub mod text;
pub mod ui;
