//! A small library of verified pieces around classic Rust language
//! demonstrations: splitting a vector in two, an absolute value, a
//! counter, trait dispatch with exact contracts, decimal and list
//! rendering, and closure application.

pub mod closures;
pub mod counter;
pub mod demo_traits;
pub mod digits;
pub mod hello_macro;
pub mod numbers;
pub mod split;
pub mod vec_new;
pub mod wrapper;
