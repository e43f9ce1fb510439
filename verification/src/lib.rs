//! Verified core of the octos terminal client: text sanitisation, plan
//! extraction, pane navigation, onboarding validation and protocol helpers.

pub mod permission_profile;
pub mod text;
pub mod sanitize;
pub mod terminal_probe;
pub mod json;
pub mod model;
pub mod protocol;
pub mod transport;
pub mod profiles;
pub mod theme;
pub mod viewport;
pub mod cell_diff;
pub mod connection;
pub mod mock;
pub mod readonly;
pub mod cursors;
pub mod results;
