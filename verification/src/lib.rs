//! On-call rotation schedules: who is on duty in which window, and the
//! YAML document that says so.

pub mod calendar;
pub mod cli;
pub mod constants;
pub mod renderer;
pub mod rotation;
pub mod timestamp;

pub use cli::{validate_args, Args, UsageError};
pub use constants::DATE_FORMAT;
pub use renderer::{
    render_header, render_header_with_schedule_key, render_item, render_schedule,
    render_user_schedule,
};
pub use rotation::{assignment_at, assignments, Assignment};
pub use timestamp::{parse_date, DateParseError, Timestamp};
