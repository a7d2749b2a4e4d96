//! A memoizing font cache that sits between a text-rendering layer and a
//! platform font backend.
//!
//! The cache resolves a family from a list of candidate names, selects a font
//! within a family for given style properties, and remembers the metrics record
//! of each font, so that repeated layout passes do not query the backend again.
//! Every operation is stated over the mathematical view of the cache
//! ([`CacheView`]) and proved against it.
//!
//! - [`cache`]: the cache over a backend, [`FontCache`]. Its operations ask
//!   the backend and take exclusive access; a caller that shares a cache
//!   between threads puts it behind a lock.
//! - [`state`]: the cache's own data, [`FontCacheState`]: the registry and the
//!   two indices, with the steps that take a backend's answer as an argument.
//! - [`model`]: the view, and what each operation makes of it for every answer
//!   a backend could give.
//! - [`laws`]: what holds of the operations taken together.
//! - [`platform`]: the backend, [`FontSystem`].
//! - [`properties`], [`handles`], [`error`]: the values that pass between a
//!   caller, the cache and the backend.
//!
//! Lengths at a rendering size are floating-point arithmetic on the metrics
//! that [`FontCache::metric`] hands out; they are left to the caller.

pub mod cache;
pub mod error;
pub mod handles;
pub mod laws;
pub mod model;
pub mod platform;
pub mod properties;
pub mod state;

pub use crate::cache::FontCache;
pub use crate::error::FontError;
pub use crate::handles::{FamilyId, FontId, GlyphId};
pub use crate::model::{loaded, CacheView, FamilyView, Offer, SteadyAnswers};
pub use crate::platform::FontSystem;
pub use crate::properties::{Properties, Stretch, Style, Weight};
pub use crate::state::FontCacheState;
