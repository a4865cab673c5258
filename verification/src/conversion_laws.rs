//! What the conversions keep of the data they carry across: every element
//! of a list, every field of an object, read back as the data it came from.
use vstd::prelude::*;
use crate::java::{JArg, JField, JInstance};
use crate::into_java::{IntoJava, utc_timestamp_text};
use crate::from_java::{DecodeError, FieldRead, FromJava, JavaBaseClass, JavaObjectKind};
use crate::laws::{law_location_choice_round_trip, read_back};
use crate::model::{
    AccountData, Constraint, LocationConstraint, TunnelStateTransition, RelayConstraints,
    RelayConstraintsUpdate, RelayConstraintsUpdateModel, RelayList, RelayListCity,
    RelayListCountry, RelaySettings, RelaySettingsUpdate, RelaySettingsUpdateModel, Settings,
};

verus! {

/// The JNI name of the class that `arg` builds an object of, if it builds one.
pub open spec fn constructed_class(arg: JArg) -> Option<Seq<char>> {
    match arg {
        JArg::New(n) => Some(n.class),
        _ => None,
    }
}

/// The constructor arguments of the object that `arg` builds (none where it
/// builds no object).
pub open spec fn constructor_args(arg: JArg) -> Seq<JArg> {
    match arg {
        JArg::New(n) => n.args,
        _ => Seq::empty(),
    }
}

/// The items of the list that `arg` builds (none where it builds no list).
pub open spec fn list_items(arg: JArg) -> Seq<JArg> {
    match arg {
        JArg::List(items) => items,
        _ => Seq::empty(),
    }
}

/// A vector converts to a list with one item for each element, the `i`-th
/// item being what the `i`-th element converts to.
pub proof fn law_list_keeps_every_element<T: IntoJava>(elements: Vec<T>)
    ensures
        elements.java_value() is List,
        list_items(elements.java_value()).len() == elements@.len(),
        forall|i: int|
            0 <= i < elements@.len() ==> #[trigger] list_items(elements.java_value())[i]
                == elements@[i].java_value(),
{
}

/// The relay list converts to a `RelayList` whose only argument is a list
/// with one item for each country, in order, each built with the country's
/// name and code.
pub proof fn law_relay_list_keeps_every_country(list: RelayList)
    ensures
        constructed_class(list.java_value()) == Some("net/mullvad/mullvadvpn/model/RelayList"@),
        constructor_args(list.java_value()).len() == 1,
        list_items(constructor_args(list.java_value())[0]).len() == list.countries@.len(),
        forall|i: int|
            0 <= i < list.countries@.len() ==> {
                let item = #[trigger] list_items(constructor_args(list.java_value())[0])[i];
                &&& constructed_class(item) == Some("net/mullvad/mullvadvpn/model/RelayListCountry"@)
                &&& constructor_args(item)[0] == JArg::Str(list.countries@[i].name@)
                &&& constructor_args(item)[1] == JArg::Str(list.countries@[i].code@)
            },
{
    law_list_keeps_every_element(list.countries);
}

/// A country converts to a `RelayListCountry` built with its name, its code
/// and a list with one item for each city, in order, each built with the
/// city's name and code.
pub proof fn law_country_keeps_every_city(country: RelayListCountry)
    ensures
        constructed_class(country.java_value()) == Some(
            "net/mullvad/mullvadvpn/model/RelayListCountry"@,
        ),
        constructor_args(country.java_value()).len() == 3,
        constructor_args(country.java_value())[0] == JArg::Str(country.name@),
        constructor_args(country.java_value())[1] == JArg::Str(country.code@),
        list_items(constructor_args(country.java_value())[2]).len() == country.cities@.len(),
        forall|j: int|
            0 <= j < country.cities@.len() ==> {
                let item = #[trigger] list_items(constructor_args(country.java_value())[2])[j];
                &&& constructed_class(item) == Some("net/mullvad/mullvadvpn/model/RelayListCity"@)
                &&& constructor_args(item)[0] == JArg::Str(country.cities@[j].name@)
                &&& constructor_args(item)[1] == JArg::Str(country.cities@[j].code@)
            },
{
    law_list_keeps_every_element(country.cities);
}

/// A city converts to a `RelayListCity` built with its name, its code and a
/// list with one item for each relay, in order, each a `Relay` built with
/// the relay's host name.
pub proof fn law_city_keeps_every_relay(city: RelayListCity)
    ensures
        constructed_class(city.java_value()) == Some("net/mullvad/mullvadvpn/model/RelayListCity"@),
        constructor_args(city.java_value()).len() == 3,
        constructor_args(city.java_value())[0] == JArg::Str(city.name@),
        constructor_args(city.java_value())[1] == JArg::Str(city.code@),
        list_items(constructor_args(city.java_value())[2]).len() == city.relays@.len(),
        forall|k: int|
            0 <= k < city.relays@.len() ==> {
                let item = #[trigger] list_items(constructor_args(city.java_value())[2])[k];
                &&& constructed_class(item) == Some("net/mullvad/mullvadvpn/model/Relay"@)
                &&& constructor_args(item) == seq![JArg::Str(city.relays@[k].hostname@)]
            },
{
    law_list_keeps_every_element(city.relays);
}

/// Relay constraints convert to a `RelaySettings$RelayConstraints` whose only
/// argument reads back as the location constraint.
pub proof fn law_relay_constraints_carry_location(constraints: RelayConstraints)
    ensures
        constructed_class(constraints.java_value()) == Some(
            "net/mullvad/mullvadvpn/model/RelaySettings$RelayConstraints"@,
        ),
        constructor_args(constraints.java_value()).len() == 1,
        Constraint::<LocationConstraint>::decoded(
            read_back(
                constructor_args(constraints.java_value())[0],
                FieldRead::Object(JavaObjectKind::LocationConstraintChoice),
            ),
        ) == Ok::<_, DecodeError>(constraints.location.deep_view()),
{
    law_location_choice_round_trip(constraints.location);
}

/// Settings convert to a `Settings` object whose first argument reads back as
/// the account token (`null` for none), whatever the relay settings, and
/// whose second argument is the relay settings' object: for constraints, one
/// whose location reads back as theirs; for a custom endpoint, one with no
/// arguments.
pub proof fn law_settings_carry_token_and_relay_settings(settings: Settings)
    ensures
        constructed_class(settings.java_value()) == Some("net/mullvad/mullvadvpn/model/Settings"@),
        constructor_args(settings.java_value()).len() == 2,
        Option::<String>::decoded(read_back(constructor_args(settings.java_value())[0], FieldRead::Str))
            == Ok::<_, DecodeError>(settings.account_token.deep_view()),
        match settings.relay_settings {
            RelaySettings::Normal(constraints) => {
                let relay = constructor_args(settings.java_value())[1];
                &&& constructed_class(relay) == Some(
                    "net/mullvad/mullvadvpn/model/RelaySettings$RelayConstraints"@,
                )
                &&& constructor_args(relay).len() == 1
                &&& Constraint::<LocationConstraint>::decoded(
                    read_back(
                        constructor_args(relay)[0],
                        FieldRead::Object(JavaObjectKind::LocationConstraintChoice),
                    ),
                ) == Ok::<_, DecodeError>(constraints.location.deep_view())
            },
            RelaySettings::CustomTunnelEndpoint(_) => {
                let relay = constructor_args(settings.java_value())[1];
                &&& constructed_class(relay) == Some(
                    "net/mullvad/mullvadvpn/model/RelaySettings$CustomTunnelEndpoint"@,
                )
                &&& constructor_args(relay).len() == 0
            },
        },
{
    if let RelaySettings::Normal(constraints) = settings.relay_settings {
        law_relay_constraints_carry_location(constraints);
    }
}

/// The probe of a `RelaySettingsUpdate$RelayConstraintsUpdate` object whose
/// `location` field holds the Java value of `location`.
pub open spec fn update_probe(location: Option<Constraint<LocationConstraint>>) -> JField {
    JField::Object(
        JInstance {
            class_index: Some(1),
            fields: seq![
                read_back(
                    location.java_value(),
                    FieldRead::Object(JavaObjectKind::LocationConstraintChoice),
                ),
            ],
        },
    )
}

/// A constraints update whose `location` field holds the Java value of an
/// optional location constraint reads back as an update of exactly that
/// location, both as a constraints update and as a relay settings update.
pub proof fn law_relay_constraints_update_round_trip(update: RelayConstraintsUpdate)
    ensures
        RelayConstraintsUpdate::decoded(update_probe(update.location))
            == Ok::<_, DecodeError>(update.deep_view()),
        RelaySettingsUpdate::decoded(update_probe(update.location))
            == Ok::<_, DecodeError>(RelaySettingsUpdateModel::Normal(update.deep_view())),
{
    if let Some(choice) = update.location {
        law_location_choice_round_trip(choice);
    }
}

/// A constraints update reads its one field, and nothing else, as its
/// optional location: it succeeds exactly when that field reads as an
/// optional location constraint, with that constraint.
pub proof fn law_relay_constraints_update_reads_location(object: JInstance)
    requires
        object.fields.len() == 1,
    ensures
        forall|location: Option<Constraint<crate::model::LocationConstraintModel>>|
            RelayConstraintsUpdate::decoded(JField::Object(object)) == Ok::<_, DecodeError>(
                RelayConstraintsUpdateModel { location },
            ) <==> #[trigger] Option::<Constraint<LocationConstraint>>::decoded(object.fields[0])
                == Ok::<_, DecodeError>(location),
{
}

/// Account data converts to an `AccountData` object whose only argument
/// reads back as the text that `chrono` gives the expiry instant (`null`
/// where there is no such instant).
pub proof fn law_account_data_carries_expiry(data: AccountData)
    ensures
        constructed_class(data.java_value()) == Some("net/mullvad/mullvadvpn/model/AccountData"@),
        constructor_args(data.java_value()).len() == 1,
        Option::<String>::decoded(read_back(constructor_args(data.java_value())[0], FieldRead::Str))
            == Ok::<_, DecodeError>(utc_timestamp_text(data.expiry_secs, data.expiry_nanos)),
{
}

/// Each tunnel state converts to an object built with no arguments, and
/// different states to objects of different classes.
pub proof fn law_tunnel_states_are_told_apart(
    first: TunnelStateTransition,
    second: TunnelStateTransition,
)
    ensures
        constructed_class(first.java_value()) is Some,
        constructor_args(first.java_value()).len() == 0,
        first != second ==> constructed_class(first.java_value()) != constructed_class(
            second.java_value(),
        ),
{
    reveal_strlit("net/mullvad/mullvadvpn/model/TunnelStateTransition$Disconnected");
    reveal_strlit("net/mullvad/mullvadvpn/model/TunnelStateTransition$Connecting");
    reveal_strlit("net/mullvad/mullvadvpn/model/TunnelStateTransition$Connected");
    reveal_strlit("net/mullvad/mullvadvpn/model/TunnelStateTransition$Disconnecting");
    reveal_strlit("net/mullvad/mullvadvpn/model/TunnelStateTransition$Blocked");
    if first != second {
        let a = constructed_class(first.java_value())->0;
        let b = constructed_class(second.java_value())->0;
        assert(a.len() != b.len());
    }
}

/// A relay settings update is read only from a constraints update: a custom
/// endpoint, and a `null` object (an instance of every class to JNI, so
/// taken for a custom endpoint), are not read, and an object of neither
/// subclass is an invalid subclass.
pub proof fn law_relay_settings_update_rejections(fields: Seq<JField>)
    ensures
        RelaySettingsUpdate::decoded(JField::Null) == Err::<RelaySettingsUpdateModel, _>(
            DecodeError::Unimplemented,
        ),
        RelaySettingsUpdate::decoded(JField::Object(JInstance { class_index: Some(0), fields }))
            == Err::<RelaySettingsUpdateModel, _>(DecodeError::Unimplemented),
        RelaySettingsUpdate::decoded(JField::Object(JInstance { class_index: None, fields }))
            == Err::<RelaySettingsUpdateModel, _>(
            DecodeError::InvalidSubclass(JavaBaseClass::RelaySettingsUpdate),
        ),
{
}

} // verus!
