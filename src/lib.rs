//! Input conditioning and navigation for a kiosk menu shell.
//!
//! Raw pin levels, encoder phases, touches and key codes come in; the library
//! turns them into a single ordered stream of semantic events and folds that
//! stream through a screen state machine whose terminal transitions name an
//! application to launch.

pub mod debounce;
pub mod events;
pub mod quadrature;
pub mod adapters;
pub mod launcher;
pub mod navigation;
pub mod arbitrator;
