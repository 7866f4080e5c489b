//! Login frontend logic for the greetd display manager: the wire messages
//! exchanged with greetd, the authentication reducer that turns user input
//! and greetd replies into requests, the ring buffer behind the log ticker,
//! and the decisions of the terminal event loop.

pub mod greetd;
pub mod text;
pub mod app;
pub mod logs;
pub mod driver;
pub mod laws;
