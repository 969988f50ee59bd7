//! A versioned, bounded wire format between applications and the runtime that
//! draws for them, and the application side that speaks it.

pub mod answer_laws;
pub mod area;
pub mod asking_laws;
pub mod blob;
pub mod builder;
pub mod builder_laws;
pub mod builder_layers;
pub mod builder_lists;
pub mod builder_parts;
pub mod client;
pub mod clipping_laws;
pub mod command;
pub mod context;
pub mod deciding_laws;
pub mod device;
pub mod device_laws;
pub mod device_request;
pub mod device_result;
pub mod error;
pub mod failure;
pub mod format_laws;
pub mod frame;
pub mod glyph;
pub mod handles;
pub mod hardware;
pub mod heartbeat;
pub mod item;
pub mod layer_laws;
pub mod layout_laws;
pub mod leaf;
pub mod leaf_codec;
pub mod leaf_laws;
pub mod limit_laws;
pub mod limits;
pub mod list_laws;
pub mod lists;
pub mod make;
pub mod making_laws;
pub mod message;
pub mod message_codec;
pub mod message_laws;
pub mod metadata;
pub mod moving_laws;
pub mod name;
pub mod navigator;
pub mod node;
pub mod node_codec;
pub mod node_laws;
pub mod part_laws;
pub mod parts;
pub mod picture;
pub mod prose;
pub mod reading;
pub mod reading_laws;
pub mod refusing_laws;
pub mod rule_laws;
pub mod runner;
pub mod runner_laws;
pub mod same;
pub mod screen;
pub mod screen_codec;
pub mod sending;
pub mod session;
pub mod session_laws;
pub mod shelf;
pub mod shell;
pub mod shell_codec;
pub mod showing_laws;
pub mod span;
pub mod store;
pub mod store_codec;
pub mod task;
pub mod task_codec;
pub mod text;
pub mod ui;
pub mod wire;
