//! The native half of an Android MQTT client.
//!
//! The application connects, publishes and is notified through JNI. The connection itself is kept by
//! the `rumqttc` crate; this library decides everything around it:
//!
//! - [`config`] reads the settings of a connection,
//! - [`broker`] sets the connection up,
//! - [`session`] says what is done about each of its events, for as long as it lives,
//! - [`queues`] holds what waits between the application and the background tasks,
//! - [`client`] is the client with its state, and what each background task does with it,
//! - [`calls`] and [`callbacks`] notify the application,
//! - [`bridge`] receives what the application asks for,
//! - [`jvm`] is the border to the virtual machine, and [`text`] holds helpers for strings.
//!
//! Awaiting, spawning, sleeping and logging are left to the program around the library, which hands
//! in what happened and does what comes back.

pub mod bridge;
pub mod broker;
pub mod callbacks;
pub mod calls;
pub mod client;
pub mod config;
pub mod jvm;
pub mod queues;
pub mod session;
pub mod text;
