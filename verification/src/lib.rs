//! A limit-order escrow-and-settlement engine.
//!
//! Users deposit a source asset and register a desired target asset together
//! with a minimum acceptable output; an operator later triggers execution,
//! which routes the escrowed funds through an external swap venue, and on
//! completion settles the proceeds to the order owner minus a protocol fee.
//!
//! The engine itself is pure: every entry point is a verified function from
//! the current state and the call's inputs to the next state and a value
//! transfer the host must perform (a [`protocol::Credit`] to apply to its
//! ledger, or a [`protocol::SwapRequest`] to dispatch to the venue). The
//! ledger that actually moves value and the venue that fills orders are
//! external collaborators; their observable effect on balances is modelled
//! in [`ledger`], and the laws tying the two together are proved in [`laws`].

pub mod errors;
pub mod laws;
pub mod ledger;
pub mod protocol;
pub mod store;
pub mod token;
