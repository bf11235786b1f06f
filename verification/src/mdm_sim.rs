//! The meter-to-bill process (M → H → V → A → S → B) for electric and
//! water endpoints. The measurement mapping is declared first, then the
//! domain, then the operators acting at locus A.

pub mod measurement;
pub mod domain;
pub mod operators;
