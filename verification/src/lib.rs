//! The animation and interaction logic of a desktop operator.
pub mod json;
pub mod operator;
pub mod skin;
