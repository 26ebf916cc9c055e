//! Core of a procurement-ticket approval service.
//!
//! Initiators request materials, a purchasing manager confirms or denies the
//! request and sets a price, and an accounting manager marks confirmed
//! requests as paid.  This crate holds the parts with real invariants: the
//! ticket lifecycle state machine with its authorization rules, the
//! denormalized read path that joins tickets with the users they reference,
//! the deterministic listing order, and the token service's decision logic.
//! Transport, routing and the stores themselves are outside collaborators.

pub mod api;
pub mod config;
pub mod db;
pub mod lifecycle;
pub mod listing;
pub mod service;
pub mod token;
pub mod view;
