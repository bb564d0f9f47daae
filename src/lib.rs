//! Middleware layer of a web framework: stages that process requests, adapters
//! that bring a stage's response body and error into the framework's canonical
//! shapes, conditional composition and a session stage.
use vstd::prelude::*;

pub mod adapter;
pub mod conditional;
pub mod error;
pub mod handler;
pub mod message;
pub mod session;
pub mod stage;

pub use adapter::{
    map_body, map_response, IntoCotError, IntoCotErrorLayer, IntoCotResponse, IntoCotResponseLayer,
};
pub use conditional::{Conditional, ConditionalLayer};
pub use error::{map_err, Error, ErrorReport, Fault, IntoFault};
pub use handler::FixedHandler;
pub use message::{Body, Request, Response, Session, StageBody};
pub use session::{record_saved, resolve_session, MemoryStore, SessionMiddleware, SessionService};
pub use stage::{Layer, Readiness, Stage};

verus! {

} // verus!
