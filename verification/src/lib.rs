//! The decisions of Lore's file I/O, content read and token exchange paths.
//!
//! Every function here is free of I/O. Where the work alternates with the
//! outside world (a token store, an authentication service, a repository), the
//! library is a state machine: it names the next thing to ask for, and is
//! handed the answer.
pub mod auth;
pub mod auth_laws;
pub mod bytes_spec;
pub mod cache;
pub mod clock;
pub mod driver;
pub mod driver_laws;
pub mod errors;
pub mod exchange;
pub mod exchange_laws;
pub mod pool;
pub mod pool_laws;
pub mod presigned;
pub mod read;
pub mod read_laws;
pub mod selection;
pub mod text;
