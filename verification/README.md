# rumqttc-native

The native half of an Android MQTT client, written in Verus. The application talks to it through
JNI: it connects, publishes, asks whether there is a connection, and is notified through a callback
object. A connection that is lost is made again after a fixed number of seconds, for as long as the
client lives.

- `src/` is the verified library: the settings, the course of a session, the queues, the state of
  the client and the notifications, with their contracts and the laws that hold of them.
- `app/` is the dynamic library that the application loads: the native methods, the Tokio runtime
  and the three background tasks.
- `tests/` runs the library.

What the `jni`, `rumqttc` and `tokio` crates do is believed, not proved. The believed items stand in
`src/jvm.rs`, `src/broker.rs`, `src/queues.rs` and `src/text.rs`; each names the function it speaks
of and says what is claimed.
