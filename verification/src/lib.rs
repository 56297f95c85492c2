//! A technical-analysis engine whose structure is proved.
//!
//! The engine turns an ascending series of OHLCV candles into indicator
//! series and trading signals. It is generic over the arithmetic of the
//! values ([`scalar::Scalar`]): every contract states which operations are
//! applied to which inputs, and on which candle each output point stands.
//! Everything that concerns time, alignment, ordering and planning is
//! stated over integers and proved outright.
//!
//! [`fixed::Fixed`] is an arithmetic that is verified from end to end: a
//! decimal fixed-point number that saturates in place of overflowing. An
//! application that wants floating-point numbers implements
//! [`scalar::Scalar`] for them.
//!
//! Beside the engine stand what feeds it: the planner that maps a
//! requested interval to one that a market serves ([`plan`]), the
//! resampler that aggregates the served candles ([`resample`]), and the
//! cache that keeps them while they are fresh ([`cache`]).

pub mod cache;
pub mod fixed;
pub mod lookup;
pub mod models;
pub mod plan;
pub mod providers;
pub mod resample;
pub mod scalar;
pub mod series;
pub mod ta_engine;
pub mod text;
