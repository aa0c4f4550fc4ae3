//! Game server logic for a recreation of a classic online role playing game.

pub mod clients;
pub mod config;
pub mod text;
pub mod update;
pub mod user;
pub mod character;
pub mod lifecycle;
pub mod messages;
pub mod player;
pub mod session;
pub mod world;
pub mod packet;
pub mod server_packet;
pub mod client_packet;
pub mod connection;
