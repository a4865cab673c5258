use mullvad_jni::into_java::{account_data_object, reply_or_null};
use mullvad_jni::java::{JavaArg, JavaNew};
use mullvad_jni::model::{
    AccountData, Constraint, CustomTunnelEndpoint, LocationConstraint, Relay, RelayConstraints,
    RelayList, RelayListCity, RelayListCountry, RelaySettings, Settings, TunnelStateTransition,
};
use mullvad_jni::IntoJava;

fn new(class: &str, signature: &str, args: Vec<JavaArg>) -> JavaArg {
    JavaArg::New(JavaNew {
        class: class.to_string(),
        signature: signature.to_string(),
        args,
    })
}

fn text(value: &str) -> JavaArg {
    JavaArg::Str(value.to_string())
}

fn relay(hostname: &str) -> Relay {
    Relay { hostname: hostname.to_string() }
}

fn relay_java(hostname: &str) -> JavaArg {
    new("net/mullvad/mullvadvpn/model/Relay", "(Ljava/lang/String;)V", vec![text(hostname)])
}

#[test]
fn string_converts_to_java_string() {
    assert_eq!("se-got-001".to_string().into_java(), text("se-got-001"));
}

#[test]
fn missing_string_converts_to_null() {
    let none: Option<String> = None;
    assert_eq!(none.into_java(), JavaArg::Null);
    assert_eq!(Some("token".to_string()).into_java(), text("token"));
}

#[test]
fn vector_converts_to_list_in_order() {
    let relays = vec![relay("a"), relay("b"), relay("c")];
    assert_eq!(
        relays.into_java(),
        JavaArg::List(vec![relay_java("a"), relay_java("b"), relay_java("c")])
    );
    let empty: Vec<Relay> = Vec::new();
    assert_eq!(empty.into_java(), JavaArg::List(Vec::new()));
}

#[test]
fn relay_converts_to_relay_object() {
    assert_eq!(relay("se-got-001").into_java(), relay_java("se-got-001"));
}

#[test]
fn relay_list_converts_countries_cities_and_relays() {
    let list = RelayList {
        countries: vec![RelayListCountry {
            name: "Sweden".to_string(),
            code: "se".to_string(),
            cities: vec![RelayListCity {
                name: "Gothenburg".to_string(),
                code: "got".to_string(),
                relays: vec![relay("se-got-001"), relay("se-got-002")],
            }],
        }],
    };
    let city = new(
        "net/mullvad/mullvadvpn/model/RelayListCity",
        "(Ljava/lang/String;Ljava/lang/String;Ljava/util/List;)V",
        vec![
            text("Gothenburg"),
            text("got"),
            JavaArg::List(vec![relay_java("se-got-001"), relay_java("se-got-002")]),
        ],
    );
    let country = new(
        "net/mullvad/mullvadvpn/model/RelayListCountry",
        "(Ljava/lang/String;Ljava/lang/String;Ljava/util/List;)V",
        vec![text("Sweden"), text("se"), JavaArg::List(vec![city])],
    );
    let expected = new(
        "net/mullvad/mullvadvpn/model/RelayList",
        "(Ljava/util/List;)V",
        vec![JavaArg::List(vec![country])],
    );
    assert_eq!(list.into_java(), expected);
}

#[test]
fn account_data_converts_expiry_to_utc_text() {
    let data = AccountData { expiry_secs: 1431648000, expiry_nanos: 0 };
    assert_eq!(
        data.into_java(),
        new(
            "net/mullvad/mullvadvpn/model/AccountData",
            "(Ljava/lang/String;)V",
            vec![text("2015-05-15 00:00:00 UTC")]
        )
    );
}

#[test]
fn account_data_expiry_at_epoch() {
    let data = AccountData { expiry_secs: 0, expiry_nanos: 0 };
    assert_eq!(
        data.into_java(),
        new(
            "net/mullvad/mullvadvpn/model/AccountData",
            "(Ljava/lang/String;)V",
            vec![text("1970-01-01 00:00:00 UTC")]
        )
    );
}

#[test]
fn account_data_without_instant_has_null_expiry() {
    let data = AccountData { expiry_secs: i64::MAX, expiry_nanos: 0 };
    assert_eq!(
        data.into_java(),
        new(
            "net/mullvad/mullvadvpn/model/AccountData",
            "(Ljava/lang/String;)V",
            vec![JavaArg::Null]
        )
    );
    let data = AccountData { expiry_secs: 0, expiry_nanos: 2_000_000_000 };
    assert_eq!(
        data.into_java(),
        new(
            "net/mullvad/mullvadvpn/model/AccountData",
            "(Ljava/lang/String;)V",
            vec![JavaArg::Null]
        )
    );
}

fn country_java(code: &str) -> JavaArg {
    new(
        "net/mullvad/mullvadvpn/model/LocationConstraint$Country",
        "(Ljava/lang/String;)V",
        vec![text(code)],
    )
}

#[test]
fn location_constraints_convert_by_variant() {
    assert_eq!(LocationConstraint::Country("se".to_string()).into_java(), country_java("se"));
    assert_eq!(
        LocationConstraint::City("se".to_string(), "got".to_string()).into_java(),
        new(
            "net/mullvad/mullvadvpn/model/LocationConstraint$City",
            "(Ljava/lang/String;Ljava/lang/String;)V",
            vec![text("se"), text("got")]
        )
    );
    assert_eq!(
        LocationConstraint::Hostname("se".to_string(), "got".to_string(), "se-got-001".to_string())
            .into_java(),
        new(
            "net/mullvad/mullvadvpn/model/LocationConstraint$Hostname",
            "(Ljava/lang/String;Ljava/lang/String;Ljava/lang/String;)V",
            vec![text("se"), text("got"), text("se-got-001")]
        )
    );
}

#[test]
fn constraints_convert_to_any_or_only() {
    let any: Constraint<LocationConstraint> = Constraint::Any;
    assert_eq!(
        any.into_java(),
        new("net/mullvad/mullvadvpn/model/Constraint$Any", "()V", vec![])
    );
    let only = Constraint::Only(LocationConstraint::Country("de".to_string()));
    assert_eq!(
        only.into_java(),
        new(
            "net/mullvad/mullvadvpn/model/Constraint$Only",
            "(Ljava/lang/Object;)V",
            vec![country_java("de")]
        )
    );
}

#[test]
fn relay_settings_convert_by_variant() {
    let custom = RelaySettings::CustomTunnelEndpoint(CustomTunnelEndpoint {});
    assert_eq!(
        custom.into_java(),
        new("net/mullvad/mullvadvpn/model/RelaySettings$CustomTunnelEndpoint", "()V", vec![])
    );
    let normal = RelaySettings::Normal(RelayConstraints { location: Constraint::Any });
    assert_eq!(
        normal.into_java(),
        new(
            "net/mullvad/mullvadvpn/model/RelaySettings$RelayConstraints",
            "(Lnet/mullvad/mullvadvpn/model/Constraint;)V",
            vec![new("net/mullvad/mullvadvpn/model/Constraint$Any", "()V", vec![])]
        )
    );
}

#[test]
fn settings_convert_with_and_without_account() {
    let relay_settings = || RelaySettings::CustomTunnelEndpoint(CustomTunnelEndpoint {});
    let relay_settings_java =
        || new("net/mullvad/mullvadvpn/model/RelaySettings$CustomTunnelEndpoint", "()V", vec![]);
    let signature = "(Ljava/lang/String;Lnet/mullvad/mullvadvpn/model/RelaySettings;)V";
    let with = Settings {
        account_token: Some("1234567890".to_string()),
        relay_settings: relay_settings(),
    };
    assert_eq!(
        with.into_java(),
        new(
            "net/mullvad/mullvadvpn/model/Settings",
            signature,
            vec![text("1234567890"), relay_settings_java()]
        )
    );
    let without = Settings { account_token: None, relay_settings: relay_settings() };
    assert_eq!(
        without.into_java(),
        new(
            "net/mullvad/mullvadvpn/model/Settings",
            signature,
            vec![JavaArg::Null, relay_settings_java()]
        )
    );
}

#[test]
fn tunnel_state_transitions_convert_to_their_classes() {
    let cases = [
        (TunnelStateTransition::Disconnected, "Disconnected"),
        (TunnelStateTransition::Connecting, "Connecting"),
        (TunnelStateTransition::Connected, "Connected"),
        (TunnelStateTransition::Disconnecting, "Disconnecting"),
        (TunnelStateTransition::Blocked, "Blocked"),
    ];
    for (transition, name) in cases {
        let class = format!("net/mullvad/mullvadvpn/model/TunnelStateTransition${}", name);
        assert_eq!(transition.into_java(), new(&class, "()V", vec![]));
    }
}

#[test]
fn reply_converts_success_and_nulls_failure() {
    let ok: Result<Relay, String> = Ok(relay("a"));
    assert_eq!(reply_or_null(ok), relay_java("a"));
    let failed: Result<Relay, String> = Err("no daemon".to_string());
    assert_eq!(reply_or_null(failed), JavaArg::Null);
    let version: Result<String, ()> = Ok("2019.1".to_string());
    assert_eq!(reply_or_null(version), text("2019.1"));
    let no_version: Result<String, ()> = Err(());
    assert_eq!(reply_or_null(no_version), JavaArg::Null);
}

#[test]
fn account_data_object_from_expiry_text() {
    assert_eq!(
        account_data_object(Some("2020-01-01 00:00:00 UTC".to_string())),
        new(
            "net/mullvad/mullvadvpn/model/AccountData",
            "(Ljava/lang/String;)V",
            vec![text("2020-01-01 00:00:00 UTC")]
        )
    );
    assert_eq!(
        account_data_object(None),
        new("net/mullvad/mullvadvpn/model/AccountData", "(Ljava/lang/String;)V", vec![JavaArg::Null])
    );
}
