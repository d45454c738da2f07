//! Adapters that turn one provider's response into a fact. Each implements
//! `Transformable`.

pub mod cat;
pub mod dog;
