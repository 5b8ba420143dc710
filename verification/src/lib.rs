//! Verified cores of two small terminal programs: a counter driven by the arrow
//! keys, and a modal editor that builds a flat mapping of string keys to string
//! values.
//!
//! Nothing here reads a terminal or paints one. A front end turns what it reads
//! into [`input::Event`] values, hands them to the state machines, and paints
//! from the state they expose.

pub mod text;
pub mod input;
pub mod pairs;
pub mod counter;
pub mod editor;
pub mod router;
pub mod layout;
pub mod status;
