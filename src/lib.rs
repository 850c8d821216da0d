//! Risk and reward figures of a covered call: a held underlying asset with a
//! call option sold against it.
//!
//! Quotes are integers counted in ticks (the smallest price step the caller
//! chooses, such as a cent), and commission rates are integers counted in
//! parts per million of a traded price. A price after commission is then an
//! exact integer in millionths of a tick, so every figure below is computed
//! without rounding.

use vstd::prelude::*;

pub mod laws;
pub mod strategy;

pub use strategy::{
    covered_call, Commission, CoveredCall, OptionContract, UnderlyingAsset, NET_BOUND, RATE_SCALE,
};

verus! {

/// Whether an option gives the right to buy (a call) or to sell (a put) at the strike.
#[derive(Clone, Copy, Debug, PartialEq, Eq, Structural)]
pub enum OptionType {
    Call,
    Put,
}

/// The side that the holder of a position in an option stands on.
#[derive(Clone, Copy, Debug, PartialEq, Eq, Structural)]
pub enum Position {
    Long,
    Short,
}

} // verus!
