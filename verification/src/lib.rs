//! Animal facts: picks an animal, reads one provider's answer and turns it
//! into a uniform `(animal, fact)` pair.

pub mod config;
pub mod error;
pub mod facts;
pub mod handlers;
pub mod json;
