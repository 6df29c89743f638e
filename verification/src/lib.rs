//! Decision core of the Jamodio audio agent.

pub mod access;
pub mod asio_lab;
pub mod au_host;
pub mod audio_open;
pub mod capture_start;
pub mod channels;
pub mod clock;
pub mod connection;
pub mod decode;
pub mod dispatch;
pub mod float_bits;
pub mod frames;
pub mod keyed;
pub mod liveness;
pub mod media_text;
pub mod messages;
pub mod midi;
pub mod option_text;
pub mod perfstats;
pub mod pipeline;
pub mod plugin;
pub mod plugin_control;
pub mod plugin_scan;
pub mod recv_activity;
pub mod recv_io;
pub mod relaunch;
pub mod stages;
pub mod text;
pub mod timer_precision;
pub mod tray_promote;
