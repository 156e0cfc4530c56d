//! Tracks vessels inside a port: a read-only catalogue of vessel records
//! that can be listed and queried, and a greedy single-pass reduction of a
//! vessel's GPS track to points spaced farther apart than a chosen radius.

pub mod model;
pub mod query;
pub mod simplify;

pub use model::Coordinate;
pub use model::MMSIList;
pub use model::Port;
pub use model::SimplifyIn;
pub use model::SimplifyOut;
pub use model::Vessel;
pub use model::VesselList;
pub use model::VesselModel;
pub use model::unique_keys;
pub use query::index;
pub use query::lemma_lookup_characterizes;
pub use query::lemma_lookup_unique;
pub use query::lemma_matched_characterizes;
pub use query::lookup;
pub use query::matched;
pub use query::vessels;
pub use query::vessels_status;
pub use simplify::error;
pub use simplify::simplify;
pub use simplify::kept_upto;
pub use simplify::lemma_collapse_to_start;
pub use simplify::lemma_kept_upto;
pub use simplify::lemma_two_point_collapse;
pub use simplify::simplify_spec;
pub use simplify::Spacing;
