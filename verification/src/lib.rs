//! The logic of a small "hello world" server, apart from its sockets.
//!
//! The server binds one address, accepts one connection at a time, reads
//! once from it, and answers with a fixed response whatever it has read. A
//! second variant hands the sockets to axum and serves two fixed routes.
//!
//! - [`endpoint`]: the address to bind, and how it is read from the
//!   arguments of the process or from a line of input;
//! - [`request`]: the request as text, for printing;
//! - [`response`]: the fixed response and the length that it declares;
//! - [`failure`]: the failures of the server and what each means for the
//!   process;
//! - [`acceptor`]: the acceptor as a machine that decides each step from the
//!   outcome of the one before;
//! - [`trace`]: what holds of every run of that machine;
//! - [`router`]: the two routes and the axum router that serves them;
//! - [`decimal`]: numbers as decimal text.
//!
//! Nothing here touches a socket: the program around the library does what
//! the machine asks for and reports how it went.

pub mod acceptor;
pub mod decimal;
pub mod endpoint;
pub mod failure;
pub mod request;
pub mod response;
pub mod router;
pub mod trace;
