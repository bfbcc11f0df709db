//! Course catalog core: course listing plans, course detail aggregation,
//! resource upload preparation and validation, link rows and a bearer-token
//! cache, each with its contract proved by Verus.
use vstd::prelude::*;

pub mod details;
pub mod errors;
pub mod ids;
pub mod links;
pub mod model;
pub mod pipeline;
pub mod pagination;
pub mod text;
pub mod token_cache;
pub mod upload;
