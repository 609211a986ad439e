//! Hybrid Logical Clock (HLC) timestamps.
//!
//! The crate packs a physical time (milliseconds since a custom epoch) and a
//! logical counter into one 64-bit word, keeps that word in a lock-free atomic
//! register, and derives new timestamps from local clock ticks and from
//! timestamps received from remote nodes, so that the produced sequence is
//! strictly increasing and causally ordered.

pub mod epoch;
pub mod error;
pub mod generator;
pub mod source;
pub mod timestamp;

pub use epoch::CustomEpochTimestamp;
pub use epoch::EPOCH;
pub use error::HlcError;
pub use error::HlcResult;
pub use generator::HlcGenerator;
pub use source::ManualTimestamp;
pub use source::TimestampSource;
pub use source::UtcTimestamp;
pub use timestamp::HlcAtomicTimestamp;
pub use timestamp::HlcTimestamp;
