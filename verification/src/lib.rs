//! The decision core of a Qobuz Connect player daemon: streaming buffer,
//! playback cache index, queue materialization, renderer commands, pairing,
//! reporting and session lifecycle, as pure state transitions.

pub mod buffer_laws;
pub mod cache_laws;
pub mod cmaf;
pub mod cmaf_download;
pub mod cmaf_segment;
pub mod command_laws;
pub mod decode;
pub mod engine;
pub mod feed_laws;
pub mod json;
pub mod materialize;
pub mod media_source;
pub mod model_laws;
pub mod pairing;
pub mod pairing_laws;
pub mod playback_cache;
pub mod playback_engine;
pub mod playback_laws;
pub mod queue;
pub mod queue_laws;
pub mod remote_stream;
pub mod renderer;
pub mod renderer_command;
pub mod renderer_model;
pub mod report;
pub mod report_laws;
pub mod segment_laws;
pub mod service;
pub mod service_laws;
pub mod sink;
pub mod sink_laws;
pub mod stream_buffer;
pub mod stream_config;
pub mod stream_laws;
pub mod text;
pub mod text_laws;
pub mod volume_curve;
pub mod writer;
