//! Wire protocol, command model and control logic of a robot hub bridge.
pub mod base_lynx_command;
pub mod command;
pub mod command_data;
pub mod command_utils;
pub mod commands;
pub mod compare;
pub mod gamepad;
pub mod hardware;
pub mod i2c;
pub mod lynx_commands;
pub mod octoquad;
pub mod wire;
pub mod packet;
pub mod pinpoint;
pub mod proxy;
pub mod reader;
pub mod scheduler;
pub mod send_window;
pub mod streaming;
pub mod telemetry;
pub mod timing;
