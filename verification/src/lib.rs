//! A small commutative-algebra library.
//!
//! The heart of the crate is the polynomial ring: [`poly::Polynomial`] is a
//! dense polynomial over any coefficient type that satisfies the capability
//! traits of [`group_traits`] and [`ring_traits`].  Every element type carries
//! a mathematical model (an associated `Elem` type plus spec-level operations)
//! and every executable operation is specified against that model.

pub mod abstractions;
pub mod error;
pub mod finite_fields;
pub mod group_traits;
pub mod helpers;
pub mod modular;
pub mod module;
pub mod poly;
pub mod ring_traits;
pub mod sub;
