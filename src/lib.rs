//! Named tunnels (SSH dynamic forwards and Docker containers) with a uniform
//! start / stop / restart / status lifecycle.
pub mod config;
pub mod context;
pub mod docker;
pub mod docker_openvpn;
pub mod error;
pub mod laws;
pub mod manager;
pub mod session;
pub mod ssh;
pub mod text;
pub mod tunnel;
