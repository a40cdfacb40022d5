//! Helpers on managed objects.

pub mod oop;
