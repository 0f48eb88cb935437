//! Saved-query execution and pagination for a remote log service.
//!
//! The remote calls themselves are made by the caller. This crate holds the
//! data model, the decisions that drive pagination, polling and tailing, the
//! reading of the command line's dates, and the text rendering of results.
pub mod actions;
pub mod args;
pub mod error;
pub mod model;
pub mod pager;
pub mod search;
pub mod tail;
pub mod text;

pub use actions::{DummyAction, FetchLogGroupsAction, MainMenuAction, TailLogsWrapperAction};
pub use args::ExecuteQueryArgs;
pub use error::SauronError;
pub use model::{
    LogField, LogGroup, LogGroupList, LogLine, LogQueryInfo, LogQueryInfoList, LogResults,
    LogStream, LogStreamList, TerminalError,
};
pub use pager::Pager;
pub use search::{QueryStatus, SearchExecution, SearchRequest, SearchState};
pub use tail::LogTail;
