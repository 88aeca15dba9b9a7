//! Audio capture for meetings: device names, capture sources, and the decisions
//! behind starting, monitoring and stopping a recording.

pub mod call_laws;
pub mod capture_laws;
pub mod clock;
pub mod clock_laws;
pub mod core_audio;
pub mod creation;
pub mod creation_laws;
pub mod device;
pub mod discovery;
pub mod linux;
pub mod lookup;
pub mod lookup_laws;
pub mod name_laws;
pub mod pulse;
pub mod pulse_capture;
pub mod pulse_laws;
pub mod pulse_wait;
pub mod query_laws;
pub mod row_laws;
pub mod selection;
pub mod session;
pub mod session_laws;
pub mod start;
pub mod start_laws;
pub mod start_work_laws;
pub mod step_laws;
pub mod stop;
pub mod stop_laws;
pub mod stream;
pub mod stream_laws;
pub mod text;
pub mod text_laws;
pub mod transcript;
