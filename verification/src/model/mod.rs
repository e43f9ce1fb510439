//! Client-side state model: plan extraction, composer presentation,
//! pane navigation, onboarding and protocol data shapes.

pub mod plan;
pub mod panes;
pub mod composer;
pub mod composer_edit;
pub mod drafts;
pub mod navigation;
pub mod llm;
pub mod auth;
pub mod onboarding;
pub mod protocol_types;
pub mod snapshot;
pub mod session;
pub mod diff;
pub mod activity;
pub mod transcript;
pub mod optimistic;
pub mod keyed;
pub mod catalogs;
pub mod autonomy;
pub mod task_output;
pub mod pane_snapshot;

pub use plan::{PlanStep, plan_steps_from_text, complete_plan_steps_in_text, merge_completed_plan_steps, normalize_plan_text};
