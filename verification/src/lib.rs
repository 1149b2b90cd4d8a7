//! The decision-making core of a LAN audio hub: devices and streams, the
//! background-music player, logins and the control bus.

pub mod accounts;
pub mod auth;
pub mod auth_calls;
pub mod auth_laws;
pub mod capture;
pub mod clock;
pub mod device;
pub mod hub;
pub mod hub_calls;
pub mod hub_laws;
pub mod ids;
pub mod json;
pub mod level;
pub mod passwords;
pub mod player;
pub mod player_api;
pub mod player_laws;
pub mod socket_calls;
pub mod sockets;
pub mod tables;
pub mod text;
pub mod value_calls;
pub mod web;
