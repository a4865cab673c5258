//! The Java method that tunnel state changes are reported to.
use vstd::prelude::*;

verus! {

/// A Java method: the JNI name of its class, its name, and its JNI
/// signature.
#[derive(Debug, Clone, PartialEq, Eq)]
pub struct JavaMethod {
    pub class: String,
    pub name: String,
    pub signature: String,
}

/// The method of the app's IPC client object that is called with each
/// tunnel state change, as the only argument.
pub fn tunnel_event_callback() -> (r: JavaMethod)
    ensures
        r.class@ == "net/mullvad/mullvadvpn/MullvadIpcClient"@,
        r.name@ == "notifyTunnelStateEvent"@,
        r.signature@ == "(Lnet/mullvad/mullvadvpn/model/TunnelStateTransition;)V"@,
{
    JavaMethod {
        class: String::from_str("net/mullvad/mullvadvpn/MullvadIpcClient"),
        name: String::from_str("notifyTunnelStateEvent"),
        signature: String::from_str("(Lnet/mullvad/mullvadvpn/model/TunnelStateTransition;)V"),
    }
}

} // verus!
