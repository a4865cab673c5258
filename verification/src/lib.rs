//! The data that the Mullvad VPN app's Java side and its daemon exchange
//! through JNI: the Java objects that the daemon's data converts to, the
//! reading of Java objects back into the daemon's data, the classes that are
//! loaded up front, the retrying of the connection to the daemon, and the
//! form of the log lines.
pub mod java;
pub mod model;
pub mod into_java;
pub mod from_java;
pub mod classes;
pub mod connect;
pub mod logging;
pub mod laws;
pub mod conversion_laws;
pub mod tunnel_events;

pub use from_java::FromJava;
pub use into_java::IntoJava;
