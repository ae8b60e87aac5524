//! A single-owner heap container that holds exactly one value of a variable
//! type, built so that transforming the held value into a value of a
//! *different* type can reuse the existing backing storage whenever the new
//! type's size and alignment fit within it. The backing capacity only grows,
//! never shrinks, and only when strictly necessary.

pub mod growbox;
pub mod layout;

pub use growbox::GrowBox;
pub use layout::CapacityLayout;
pub use layout::min_common_layout;
