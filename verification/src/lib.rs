//! Decision logic of a coding agent that delegates work to child agents.

pub mod agent_status;
pub mod charge_laws;
pub mod child_token_budget;
pub mod complete_task;
pub mod context;
pub mod context_laws;
pub mod goal;
pub mod goal_accounting;
pub mod goal_activity;
pub mod goal_auto_complete;
pub mod goal_charge;
pub mod goal_continuation;
pub mod goal_laws;
pub mod goal_progress;
pub mod goal_runtime;
pub mod goal_runtime_laws;
pub mod goal_set;
pub mod goal_store;
pub mod html;
pub mod json_text;
pub mod orchestration;
pub mod orchestration_laws;
pub mod page_laws;
pub mod protocol;
pub mod search_laws;
pub mod templates;
pub mod text;
pub mod text_laws;
pub mod text_order;
pub mod thread_id;
pub mod token_usage;
pub mod tool_spec;
pub mod usage_hint;
pub mod view_image_url;
pub mod wait;
pub mod wait_laws;
pub mod wait_report;
pub mod wait_run;
pub mod web_fetch;
pub mod web_laws;
pub mod web_search;
pub mod web_url;
