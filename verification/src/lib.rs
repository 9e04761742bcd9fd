//! Verified core of the rofd OFD viewer/annotator: the integer, character and
//! decision logic behind body-text selection, selection handles, scrollbar
//! chrome decisions, host input parsing and colors.

pub mod color;
pub mod body_text;
pub mod annotation;
pub mod hit_test;
pub mod handles;
pub mod input;
pub mod scrollbar;
pub mod composite;
pub mod focus;
pub mod session;
pub mod surface;
