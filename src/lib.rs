//! Connectivity probing: which HTTP and TCP targets can be reached, and the
//! report that sums the answers up.
//!
//! The library holds the decisions of a probing run: which address a TCP
//! target is dialled on, how each probe outcome is classified, how outcomes
//! are gathered into a report, and how command-line and request input is
//! validated. The network work itself is done by the caller.

pub mod can_i_connect;
pub mod dns;
pub mod error;
pub mod helpers;
pub mod levels;
pub mod options;
pub mod web;
