//! Typed wrapper around an embedded video player object: event-name codec,
//! namespaced handler registry, readiness gate and the command facade.

mod api_loader;
mod casefold;
mod error;
mod gate;
mod player;
mod player_events;
mod player_options;
mod player_state;
mod registry;

pub use api_loader::{plan_api_load, starts_with, ApiLoadStep, API_SCRIPT_URL};
pub use error::PlayerError;
pub use gate::{Readiness, ReadinessGate};
pub use player::{
    plan_payload, Listener, PayloadPlan, PlayerAction, Prepared, RemoteCall, YtPlayer, TARGET_KEY,
};
pub use player_events::{same_text, EventName, PlayerEvents};
pub use player_options::{PlayerOptions, PlayerVars};
pub use player_state::PlayerState;
pub use registry::{Callback, EventHandler, EventRegistry};
