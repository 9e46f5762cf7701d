//! Protocol layer for bots on racetime.gg: the token request and its answer,
//! the room-creation request and its answer, and the errors both can end in.
//!
//! Every function here is a pure step from plain values to plain values. The
//! network round trip between building a request and reading its response is
//! left to the caller.

pub mod error;
pub mod exchange;
pub mod form;
pub mod header;
pub mod location;
pub mod room;
pub mod text;
pub mod token;
pub mod uri;

pub use crate::error::Error;
pub use crate::exchange::{Request, Response};
pub use crate::form::StartRace;
pub use crate::token::Token;
