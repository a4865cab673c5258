# mullvad_jni

The data side of the Mullvad VPN app's JNI interface to its daemon, verified
with Verus.

- `src/java.rs`: the Java values exchanged: constructor calls to make, and
  probed Java objects to read.
- `src/model.rs`: the daemon's data that crosses the boundary.
- `src/into_java.rs`: conversion of that data into Java objects.
- `src/from_java.rs`: read plans (which subclasses and fields a Java object is
  probed for) and decoding of probed objects.
- `src/classes.rs`: the classes loaded up front and the class registry.
- `src/connect.rs`: the retrying of the connection to the daemon.
- `src/logging.rs`, `src/tunnel_events.rs`: log line layout, the tunnel
  event callback method.
- `src/laws.rs`: round trips of the conversions; that the classes that
  account data, the relay list, the settings and the read plans use are
  loaded up front (the tunnel state transition classes, and the IPC client
  class that tunnel events are reported to, are not among them, so looking
  them up fails); and that loading the classes a second time keeps the same
  class names.
- `app/`: the JNI entry points, which run the library's plans against the
  JVM and talk to the daemon.
