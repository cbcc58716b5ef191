//! Command-side logic of a desktop editor shell: result envelopes for file
//! and settings operations, a JSON document model, the dialog bridge's
//! option translation and outcome mapping, the menu relay, and the startup
//! auto-loader's state machine.

pub mod envelope;
pub mod json;
pub mod dialog;
pub mod outcome;
pub mod settings;
pub mod autoload;
pub mod menu;
