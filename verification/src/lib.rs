//! Lazy construction of a winit-style application handler.
//!
//! A host event loop demands a fully built handler before it starts, yet the
//! resources the handler needs (windows, graphics contexts) only become
//! available once the loop delivers its activation callback. The wrappers in
//! this crate hold the caller's argument bundle until that first activation,
//! build the real handler from it exactly once, and from then on forward every
//! callback to the handler unchanged.

mod app;
mod application_init;
mod event;
mod recording;
mod state;
mod unsafe_app;

pub use app::App;
pub use application_init::ApplicationInit;
pub use event::Event;
pub use recording::RecordingHandler;
pub use state::LazyState;
pub use state::checked_allows;
pub use state::lemma_activation_first_run;
pub use state::lemma_dropped_before_activation;
pub use state::lemma_ready_forwards_in_order;
pub use state::lemma_second_activation_rejected;
pub use state::lemma_variants_agree_once_ready;
pub use state::run;
pub use state::step;
pub use state::unchecked_allows;
pub use unsafe_app::UnsafeApp;
