//! Subscription intake service: layered configuration resolution and the
//! decisions taken while recording one newsletter subscription.

pub mod text;
pub mod config;
pub mod level;
pub mod layers;
pub mod intake;
