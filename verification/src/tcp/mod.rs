//! The stream transport: the echo server and the client that talks to it.

pub mod client;
pub mod server;

pub use client::TcpClient;
pub use server::TcpServer;
