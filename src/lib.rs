//! Strategies behind one capability, chosen by a numeric selector, and the
//! two ways of invoking them: through a trait object or through a generic
//! parameter.
pub mod factory;
