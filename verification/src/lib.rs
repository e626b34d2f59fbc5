//! Monte Carlo estimation of the birthday paradox: the probability that at
//! least two people in a randomly generated group share a calendar birthday.
//!
//! The simulation core is layered bottom-up: a random-date generator, a group
//! sampler, a collision detector, a trial aggregator, and an experiment
//! driver. Randomness comes from a single trusted interface that draws a
//! uniform integer from a closed range; everything above it is verified.

pub mod collision;
pub mod date;
pub mod experiment;
pub mod group;
pub mod rng;
pub mod trials;
