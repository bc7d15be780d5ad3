//! The collision core of a top-down 2D movement system.
//!
//! * [`layers`] builds the membership and filter bitmasks that decide which
//!   objects a moving shape may collide with.
//! * [`slide`] holds the decisions of the collide-and-slide resolver: when to
//!   cast the moving shape, along which direction, how to answer each kind of
//!   hit, and when the bounce budget of a tick is spent.

pub mod layers;
pub mod slide;
