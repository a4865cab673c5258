//! Conversion of the daemon's data into the Java values that the app's
//! model classes are built from.
use vstd::prelude::*;
use crate::java::{JArg, JNew, JavaArg, JavaNew, args_view};
use crate::model::{
    AccountData, Constraint, CustomTunnelEndpoint, LocationConstraint, Relay, RelayConstraints,
    RelayList, RelayListCity, RelayListCountry, RelaySettings, Settings, TunnelStateTransition,
};

verus! {

/// A value that has a Java counterpart, built by the app's model classes'
/// constructors.
pub trait IntoJava: Sized {
    /// The Java value that `self` converts to.
    spec fn java_value(&self) -> JArg;

    fn into_java(self) -> (r: JavaArg)
        ensures
            r@ == self.java_value(),
    ;
}

pub open spec fn new_value(class: Seq<char>, signature: Seq<char>, args: Seq<JArg>) -> JArg {
    JArg::New(JNew { class, signature, args })
}

/// A new object of `class`, built by the constructor of JNI `signature` on
/// `args`.
fn new_object(class: &str, signature: &str, args: Vec<JavaArg>) -> (r: JavaArg)
    ensures
        r@ == new_value(class@, signature@, args_view(args@)),
{
    JavaArg::New(
        JavaNew {
            class: String::from_str(class),
            signature: String::from_str(signature),
            args: args,
        },
    )
}

fn no_args() -> (r: Vec<JavaArg>)
    ensures
        args_view(r@) == Seq::<JArg>::empty(),
{
    let r: Vec<JavaArg> = Vec::new();
    assert(args_view(r@) =~= Seq::<JArg>::empty());
    r
}

fn one_arg(a: JavaArg) -> (r: Vec<JavaArg>)
    ensures
        args_view(r@) == seq![a@],
{
    let mut r: Vec<JavaArg> = Vec::new();
    r.push(a);
    assert(args_view(r@) =~= seq![a@]);
    r
}

fn two_args(a: JavaArg, b: JavaArg) -> (r: Vec<JavaArg>)
    ensures
        args_view(r@) == seq![a@, b@],
{
    let mut r: Vec<JavaArg> = Vec::new();
    r.push(a);
    r.push(b);
    assert(args_view(r@) =~= seq![a@, b@]);
    r
}

fn three_args(a: JavaArg, b: JavaArg, c: JavaArg) -> (r: Vec<JavaArg>)
    ensures
        args_view(r@) == seq![a@, b@, c@],
{
    let mut r: Vec<JavaArg> = Vec::new();
    r.push(a);
    r.push(b);
    r.push(c);
    assert(args_view(r@) =~= seq![a@, b@, c@]);
    r
}

impl IntoJava for String {
    open spec fn java_value(&self) -> JArg {
        JArg::Str(self@)
    }

    fn into_java(self) -> (r: JavaArg) {
        JavaArg::Str(self)
    }
}

impl<T: IntoJava> IntoJava for Option<T> {
    open spec fn java_value(&self) -> JArg {
        match self {
            Some(data) => data.java_value(),
            None => JArg::Null,
        }
    }

    fn into_java(self) -> (r: JavaArg) {
        match self {
            Some(data) => data.into_java(),
            None => JavaArg::Null,
        }
    }
}

impl<T: IntoJava> IntoJava for Vec<T> {
    /// A `java.util.ArrayList` of the elements' Java values, in order.
    open spec fn java_value(&self) -> JArg {
        JArg::List(self@.map_values(|t: T| t.java_value()))
    }

    fn into_java(self) -> (r: JavaArg) {
        let ghost elements = self@;
        let mut items: Vec<JavaArg> = Vec::new();
        for element in it: self
            invariant
                it.seq() == elements,
                items@.len() == it.index(),
                forall|j: int| 0 <= j < items@.len() ==> #[trigger] items@[j]@ == elements[j].java_value(),
        {
            let ghost before = items@;
            items.push(element.into_java());
            proof {
                assert forall|j: int| 0 <= j < items@.len() implies #[trigger] items@[j]@ == elements[j].java_value() by {
                    if j < before.len() {
                        assert(items@[j] == before[j]);
                    }
                }
            }
        }
        assert(args_view(items@) =~= elements.map_values(|t: T| t.java_value())) by {
            assert(items@.len() == elements.len());
            assert forall|j: int| 0 <= j < items@.len() implies #[trigger] args_view(items@)[j]
                == elements.map_values(|t: T| t.java_value())[j] by {
                assert(items@[j]@ == elements[j].java_value());
            }
        }
        JavaArg::List(items)
    }
}


/// The text that `chrono` gives a UTC instant, by its seconds since the Unix
/// epoch and nanoseconds past that second; `None` where `chrono` has no
/// such instant.
pub uninterp spec fn utc_timestamp_text(secs: i64, nanos: u32) -> Option<Seq<char>>;

/// Calls `chrono::DateTime::<Utc>::from_timestamp(secs, nanos)` and, where
/// that gives an instant, its `Display` text (`to_string`). Trusted: the
/// result is `utc_timestamp_text(secs, nanos)`, and there is an instant
/// whenever `nanos` is below one second and `secs` lies within eight
/// trillion seconds of the epoch (about 253,000 years, inside chrono's
/// range of years, -262,143 to 262,142).
#[verifier::external_body]
fn utc_timestamp_to_string(secs: i64, nanos: u32) -> (r: Option<String>)
    ensures
        r.deep_view() == utc_timestamp_text(secs, nanos),
        nanos < 1_000_000_000 && -8_000_000_000_000 <= secs <= 8_000_000_000_000 ==> r is Some,
{
    match chrono::DateTime::from_timestamp(secs, nanos) {
        Some(instant) => Some(instant.to_string()),
        None => None,
    }
}

/// The Java value of an account whose expiry reads `expiry_text`: the text,
/// or `null` where there is none.
pub open spec fn account_data_value(expiry_text: Option<Seq<char>>) -> JArg {
    new_value(
        "net/mullvad/mullvadvpn/model/AccountData"@,
        "(Ljava/lang/String;)V"@,
        seq![
            match expiry_text {
                Some(text) => JArg::Str(text),
                None => JArg::Null,
            },
        ],
    )
}

/// The Java account data object for an account whose expiry reads
/// `expiry_text`.
pub fn account_data_object(expiry_text: Option<String>) -> (r: JavaArg)
    ensures
        r@ == account_data_value(expiry_text.deep_view()),
{
    let expiry = expiry_text.into_java();
    new_object("net/mullvad/mullvadvpn/model/AccountData", "(Ljava/lang/String;)V", one_arg(expiry))
}

impl IntoJava for AccountData {
    /// The account data object, with the expiry as `chrono` writes the
    /// instant.
    open spec fn java_value(&self) -> JArg {
        account_data_value(utc_timestamp_text(self.expiry_secs, self.expiry_nanos))
    }

    fn into_java(self) -> (r: JavaArg) {
        account_data_object(utc_timestamp_to_string(self.expiry_secs, self.expiry_nanos))
    }
}

impl IntoJava for RelayList {
    open spec fn java_value(&self) -> JArg {
        new_value(
            "net/mullvad/mullvadvpn/model/RelayList"@,
            "(Ljava/util/List;)V"@,
            seq![self.countries.java_value()],
        )
    }

    fn into_java(self) -> (r: JavaArg) {
        let countries = self.countries.into_java();
        new_object("net/mullvad/mullvadvpn/model/RelayList", "(Ljava/util/List;)V", one_arg(countries))
    }
}

impl IntoJava for RelayListCountry {
    open spec fn java_value(&self) -> JArg {
        new_value(
            "net/mullvad/mullvadvpn/model/RelayListCountry"@,
            "(Ljava/lang/String;Ljava/lang/String;Ljava/util/List;)V"@,
            seq![JArg::Str(self.name@), JArg::Str(self.code@), self.cities.java_value()],
        )
    }

    fn into_java(self) -> (r: JavaArg) {
        let name = self.name.into_java();
        let code = self.code.into_java();
        let cities = self.cities.into_java();
        new_object(
            "net/mullvad/mullvadvpn/model/RelayListCountry",
            "(Ljava/lang/String;Ljava/lang/String;Ljava/util/List;)V",
            three_args(name, code, cities),
        )
    }
}

impl IntoJava for RelayListCity {
    open spec fn java_value(&self) -> JArg {
        new_value(
            "net/mullvad/mullvadvpn/model/RelayListCity"@,
            "(Ljava/lang/String;Ljava/lang/String;Ljava/util/List;)V"@,
            seq![JArg::Str(self.name@), JArg::Str(self.code@), self.relays.java_value()],
        )
    }

    fn into_java(self) -> (r: JavaArg) {
        let name = self.name.into_java();
        let code = self.code.into_java();
        let relays = self.relays.into_java();
        new_object(
            "net/mullvad/mullvadvpn/model/RelayListCity",
            "(Ljava/lang/String;Ljava/lang/String;Ljava/util/List;)V",
            three_args(name, code, relays),
        )
    }
}

impl IntoJava for Relay {
    open spec fn java_value(&self) -> JArg {
        new_value(
            "net/mullvad/mullvadvpn/model/Relay"@,
            "(Ljava/lang/String;)V"@,
            seq![JArg::Str(self.hostname@)],
        )
    }

    fn into_java(self) -> (r: JavaArg) {
        let hostname = self.hostname.into_java();
        new_object("net/mullvad/mullvadvpn/model/Relay", "(Ljava/lang/String;)V", one_arg(hostname))
    }
}

impl IntoJava for RelaySettings {
    open spec fn java_value(&self) -> JArg {
        match self {
            RelaySettings::CustomTunnelEndpoint(endpoint) => endpoint.java_value(),
            RelaySettings::Normal(relay_constraints) => relay_constraints.java_value(),
        }
    }

    fn into_java(self) -> (r: JavaArg) {
        match self {
            RelaySettings::CustomTunnelEndpoint(endpoint) => endpoint.into_java(),
            RelaySettings::Normal(relay_constraints) => relay_constraints.into_java(),
        }
    }
}

impl IntoJava for CustomTunnelEndpoint {
    open spec fn java_value(&self) -> JArg {
        new_value(
            "net/mullvad/mullvadvpn/model/RelaySettings$CustomTunnelEndpoint"@,
            "()V"@,
            Seq::empty(),
        )
    }

    fn into_java(self) -> (r: JavaArg) {
        new_object(
            "net/mullvad/mullvadvpn/model/RelaySettings$CustomTunnelEndpoint",
            "()V",
            no_args(),
        )
    }
}

impl IntoJava for RelayConstraints {
    open spec fn java_value(&self) -> JArg {
        new_value(
            "net/mullvad/mullvadvpn/model/RelaySettings$RelayConstraints"@,
            "(Lnet/mullvad/mullvadvpn/model/Constraint;)V"@,
            seq![self.location.java_value()],
        )
    }

    fn into_java(self) -> (r: JavaArg) {
        let location = self.location.into_java();
        new_object(
            "net/mullvad/mullvadvpn/model/RelaySettings$RelayConstraints",
            "(Lnet/mullvad/mullvadvpn/model/Constraint;)V",
            one_arg(location),
        )
    }
}

impl<T: IntoJava> IntoJava for Constraint<T> {
    open spec fn java_value(&self) -> JArg {
        match self {
            Constraint::Any => new_value(
                "net/mullvad/mullvadvpn/model/Constraint$Any"@,
                "()V"@,
                Seq::empty(),
            ),
            Constraint::Only(value) => new_value(
                "net/mullvad/mullvadvpn/model/Constraint$Only"@,
                "(Ljava/lang/Object;)V"@,
                seq![value.java_value()],
            ),
        }
    }

    fn into_java(self) -> (r: JavaArg) {
        match self {
            Constraint::Any => new_object(
                "net/mullvad/mullvadvpn/model/Constraint$Any",
                "()V",
                no_args(),
            ),
            Constraint::Only(constraint) => {
                let value = constraint.into_java();
                new_object(
                    "net/mullvad/mullvadvpn/model/Constraint$Only",
                    "(Ljava/lang/Object;)V",
                    one_arg(value),
                )
            },
        }
    }
}

impl IntoJava for LocationConstraint {
    open spec fn java_value(&self) -> JArg {
        match self {
            LocationConstraint::Country(country) => new_value(
                "net/mullvad/mullvadvpn/model/LocationConstraint$Country"@,
                "(Ljava/lang/String;)V"@,
                seq![JArg::Str(country@)],
            ),
            LocationConstraint::City(country, city) => new_value(
                "net/mullvad/mullvadvpn/model/LocationConstraint$City"@,
                "(Ljava/lang/String;Ljava/lang/String;)V"@,
                seq![JArg::Str(country@), JArg::Str(city@)],
            ),
            LocationConstraint::Hostname(country, city, hostname) => new_value(
                "net/mullvad/mullvadvpn/model/LocationConstraint$Hostname"@,
                "(Ljava/lang/String;Ljava/lang/String;Ljava/lang/String;)V"@,
                seq![JArg::Str(country@), JArg::Str(city@), JArg::Str(hostname@)],
            ),
        }
    }

    fn into_java(self) -> (r: JavaArg) {
        match self {
            LocationConstraint::Country(country_code) => {
                let country = country_code.into_java();
                new_object(
                    "net/mullvad/mullvadvpn/model/LocationConstraint$Country",
                    "(Ljava/lang/String;)V",
                    one_arg(country),
                )
            },
            LocationConstraint::City(country_code, city_code) => {
                let country = country_code.into_java();
                let city = city_code.into_java();
                new_object(
                    "net/mullvad/mullvadvpn/model/LocationConstraint$City",
                    "(Ljava/lang/String;Ljava/lang/String;)V",
                    two_args(country, city),
                )
            },
            LocationConstraint::Hostname(country_code, city_code, hostname) => {
                let country = country_code.into_java();
                let city = city_code.into_java();
                let hostname = hostname.into_java();
                new_object(
                    "net/mullvad/mullvadvpn/model/LocationConstraint$Hostname",
                    "(Ljava/lang/String;Ljava/lang/String;Ljava/lang/String;)V",
                    three_args(country, city, hostname),
                )
            },
        }
    }
}

impl IntoJava for Settings {
    open spec fn java_value(&self) -> JArg {
        new_value(
            "net/mullvad/mullvadvpn/model/Settings"@,
            "(Ljava/lang/String;Lnet/mullvad/mullvadvpn/model/RelaySettings;)V"@,
            seq![self.account_token.java_value(), self.relay_settings.java_value()],
        )
    }

    fn into_java(self) -> (r: JavaArg) {
        let account_token = self.account_token.into_java();
        let relay_settings = self.relay_settings.into_java();
        new_object(
            "net/mullvad/mullvadvpn/model/Settings",
            "(Ljava/lang/String;Lnet/mullvad/mullvadvpn/model/RelaySettings;)V",
            two_args(account_token, relay_settings),
        )
    }
}

/// The JNI name of the Java class that stands for the tunnel state
/// `transition` enters.
pub open spec fn tunnel_state_class(transition: TunnelStateTransition) -> Seq<char> {
    match transition {
        TunnelStateTransition::Disconnected => "net/mullvad/mullvadvpn/model/TunnelStateTransition$Disconnected"@,
        TunnelStateTransition::Connecting => "net/mullvad/mullvadvpn/model/TunnelStateTransition$Connecting"@,
        TunnelStateTransition::Connected => "net/mullvad/mullvadvpn/model/TunnelStateTransition$Connected"@,
        TunnelStateTransition::Disconnecting => "net/mullvad/mullvadvpn/model/TunnelStateTransition$Disconnecting"@,
        TunnelStateTransition::Blocked => "net/mullvad/mullvadvpn/model/TunnelStateTransition$Blocked"@,
    }
}

impl IntoJava for TunnelStateTransition {
    open spec fn java_value(&self) -> JArg {
        new_value(tunnel_state_class(*self), "()V"@, Seq::empty())
    }

    fn into_java(self) -> (r: JavaArg) {
        let class = match self {
            TunnelStateTransition::Disconnected => "net/mullvad/mullvadvpn/model/TunnelStateTransition$Disconnected",
            TunnelStateTransition::Connecting => "net/mullvad/mullvadvpn/model/TunnelStateTransition$Connecting",
            TunnelStateTransition::Connected => "net/mullvad/mullvadvpn/model/TunnelStateTransition$Connected",
            TunnelStateTransition::Disconnecting => "net/mullvad/mullvadvpn/model/TunnelStateTransition$Disconnecting",
            TunnelStateTransition::Blocked => "net/mullvad/mullvadvpn/model/TunnelStateTransition$Blocked",
        };
        new_object(class, "()V", no_args())
    }
}

/// The Java value that a request to the daemon answers with: the converted
/// reply, or `null` where the request failed.
pub fn reply_or_null<T: IntoJava, E>(reply: Result<T, E>) -> (r: JavaArg)
    ensures
        r@ == match reply {
            Ok(data) => data.java_value(),
            Err(_) => JArg::Null,
        },
{
    match reply {
        Ok(data) => data.into_java(),
        Err(_) => JavaArg::Null,
    }
}

} // verus!
