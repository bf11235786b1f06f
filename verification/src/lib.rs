//! Relational analysis of the Lompoc municipal utilities: the declared
//! electric-grid domain and the meter-to-bill (MDM) process domain,
//! with the integer-valued declared inputs and the decision rules that
//! the anomaly layer applies.

pub mod electric;
pub mod mdm_sim;
pub mod text;
