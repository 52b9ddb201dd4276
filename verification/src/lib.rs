//! A request router that folds a prioritised list of path patterns into one
//! regular expression and decodes, per request, which pattern fired.

pub mod dispatch;
pub mod engine;
pub mod error;
pub mod pattern;
pub mod route;
pub mod router;
pub mod slots;

pub use error::RouterError;
pub use route::{Route, RouteMatch};
pub use router::{Router, RouterBuilder};
