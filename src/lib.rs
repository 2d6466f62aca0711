//! Animal Hunt: a small reactive application core. Events drive a two-mode
//! state machine whose side effects are handed to a shell as correlated
//! requests.
pub mod catalog;
pub mod location;
pub mod app;
pub mod capabilities;
pub mod driver;
pub mod laws;

pub use app::{Animal, AnimalHunt, Event, InvalidEvent, Mode, Model, ViewModel};
pub use capabilities::{
    CapabilityContext, Capabilities, Effect, Render, Request, ResolveError, TagReader,
    TagReaderOperation, TagReaderOutput,
};
pub use driver::{AppTester, Core, CoreError, Update};
