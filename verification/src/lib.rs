//! A typed, verified facade over an operating-system window server's display,
//! window-enumeration and cursor interface.
//!
//! The window server itself lives outside this crate; here it is modelled as an
//! explicit [`server::WindowServer`] value that every operation reads or
//! updates. The crate's own contribution — adopting and duplicating
//! reference-counted display-mode handles, translating C-style return codes
//! into `Result`, and the two-phase active-display enumeration — is stated in
//! contracts and proved.

pub mod base;
pub mod display;
pub mod geometry;
pub mod lifetime;
pub mod server;
