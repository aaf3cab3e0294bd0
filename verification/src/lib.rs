//! A validated, immutable, single-use description of an index-build request.
//!
//! A caller picks one index kind (vector, scalar, or full-text), supplies any
//! of its optional tuning parameters, and receives an [`index::Index`]: a cell
//! holding exactly one fully-defaulted parameter record. The cell is consumed
//! at most once; the consumer receives the inner [`index::IndexVariant`] and
//! every later attempt observes a terminal error. String-typed options (the
//! distance metric, the full-text language) are resolved against closed name
//! sets up front, so a successfully built description never carries an
//! unrecognized name.

pub mod distance;
pub mod errors;
pub mod index;
pub mod language;
pub mod params;

pub use distance::DistanceType;
pub use distance::resolve_distance_type;
pub use errors::Error;
pub use index::Index;
pub use index::IndexVariant;
pub use language::Language;
pub use language::resolve_language;
