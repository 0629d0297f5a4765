//! Verified core of an agent node: session records, the agent registry, the
//! tool catalogue, request planning, and the text rules behind them.

pub mod app_state;
pub mod clock;
pub mod codex;
pub mod config;
pub mod dispatch;
pub mod history;
pub mod lines;
pub mod map;
pub mod output;
pub mod session;
pub mod spawn;
pub mod state;
pub mod text;
pub mod tools;
pub mod validate;

pub use app_state::AppState;
pub use history::{HistoryStore, SessionHistory, Turn};
pub use session::Session;
pub use state::{Agent, AgentStatus, NodeState};
pub use tools::get_all_tools;
