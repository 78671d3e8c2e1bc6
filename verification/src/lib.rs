//! A periodic process sampler: the decision logic, record formatting and
//! CSV encoding of a tool that polls the running processes at a fixed
//! interval and appends one row per process to a CSV file, until a time
//! budget elapses or cancellation is requested.

pub mod config;
pub mod csv_out;
pub mod laws;
pub mod session;
pub mod text;
pub mod tick;

pub use config::ConfigError;
pub use config::RunConfig;
pub use config::parse_u64;
pub use csv_out::header_row;
pub use text::u64_to_string;
pub use text::format_hundredths;
pub use tick::ProcessSample;
pub use tick::encode_tick;
pub use tick::render_tick;
pub use tick::sample_fields;
pub use session::LoopError;
pub use session::RunResult;
pub use session::TickInput;
pub use session::check_continue;
pub use session::run_session;
