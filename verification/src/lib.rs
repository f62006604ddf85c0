//! Verified core of a small web-application firewall built from a control
//! plane, which hands out filtering constraints and collects logged HTTP
//! exchanges, and proxy-wasm filters, which apply the constraints and log
//! what passes through them.

pub mod constraints;
pub mod text;
pub mod expr;
pub mod evaluation;
pub mod exchange;
pub mod control;
pub mod filter;
pub mod singleton;
