//! Small, self-contained lessons on core Rust mechanics, each carried through
//! with full functional contracts: ownership and borrowing (`basic`,
//! `parameters`), struct accessors (`accessors`), trait-based service startup
//! with generic and runtime dispatch (`startup`, `services`, `service_error`),
//! and error-enum design with widening conversions (`errors`).

pub mod accessors;
pub mod basic;
pub mod errors;
pub mod parameters;
pub mod service_error;
pub mod services;
pub mod startup;
