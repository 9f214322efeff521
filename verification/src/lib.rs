//! A console logging sink with verified filtering, formatting and
//! remote-mirroring logic.
//!
//! The library decides whether a record is emitted (a severity threshold
//! plus target-substring exclusion), renders the accepted record as one
//! colorized or plain line, and models the sequence-token protocol of an
//! append-only remote log stream. The pieces that talk to the outside
//! world (standard output, the logging facade, the remote service) live
//! in a thin shell around this crate; everything here is verified.

mod aws;
mod aws_builder;
mod level;
mod log_builder;
mod loggify;
mod registry;
mod text;
mod time;

pub use aws::select_stream_token;
pub use aws::Aws;
pub use aws::LogEvent;
pub use aws::RemoteAppendError;
pub use aws::RemoteGroup;
pub use aws::RemoteProvisionError;
pub use aws::RemoteStream;
pub use aws::StreamInfo;
pub use aws_builder::AwsBuilder;
pub use level::Level;
pub use log_builder::LogBuilder;
pub use loggify::Loggify;
pub use registry::RegistrationError;
pub use registry::Registry;
pub use time::Timestamp;
