//! Line formats for a severity-levelled logger.
//!
//! A record is rendered as one line in one of three shapes: a JSON object that
//! log collectors of the go-log family read, a text line whose level is
//! painted for a terminal, and the same text line without paint.  Which shape
//! is used follows from one configuration value and from whether the error
//! stream is a terminal.
//!
//! Everything here works on plain values and returns text; nothing is written
//! out.  [`record`] holds what a line is made from, [`json`] and [`text`] the
//! lines themselves, [`format`] the formats with the clock behind them,
//! [`select`] the choice between them, [`writer`] and [`lines`] what a file
//! sink appends, and [`init`] what installing a logger comes to.

pub mod clock;
pub mod decimal;
pub mod format;
pub mod init;
pub mod json;
pub mod level;
pub mod lines;
pub mod paint;
pub mod record;
pub mod select;
pub mod text;
pub mod writer;

pub use format::{color_logger_format, go_log_json_format, nocolor_logger_format, LogFormat};
pub use level::{Level, LevelFilter};
pub use record::LogRecord;
pub use select::{log_format, select_format};
pub use writer::SingleFileWriter;
