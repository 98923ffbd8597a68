//! Momentum rules for a fighting-game plugin: which frames record a fighter's
//! speed, when a dash turns into a pivot, how a jump's horizontal speed is
//! chosen, and which moves keep their momentum.
pub mod kinds;
pub mod object;
pub mod slots;
pub mod momentum;
pub mod hooks;
pub mod laws;
