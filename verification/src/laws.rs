//! Properties of the conversions as a whole.
use vstd::prelude::*;
use crate::java::{JArg, JField, JInstance, JNew};
use crate::into_java::IntoJava;
use crate::from_java::{ClassPlanModel, FieldRead, FromJava, JavaObjectKind, read_plan_model};
use crate::model::{
    AccountData, Constraint, LocationConstraint, Relay, RelayList, RelayListCity,
    RelayListCountry, RelaySettings, Settings,
};
use crate::classes::classes_to_load_model;

verus! {

/// The position of the first plan entry for `class`, if any.
pub open spec fn class_position(plan: Seq<ClassPlanModel>, class: Seq<char>) -> Option<usize>
    decreases plan.len(),
{
    if plan.len() == 0 {
        None
    } else if plan[0].class == class {
        Some(0)
    } else {
        match class_position(plan.drop_first(), class) {
            Some(i) => Some((i + 1) as usize),
            None => None,
        }
    }
}

/// What a probe that follows the read plans reads, as `read`, from the Java
/// value that `arg` describes, where each constructor stores its arguments,
/// in order, in the fields that the plan lists for its class, and where the
/// candidate classes of a plan are unrelated, so that an object is an
/// instance of its own class alone among them.
pub open spec fn read_back(arg: JArg, read: FieldRead) -> JField
    decreases arg,
{
    match read {
        FieldRead::Str => match arg {
            JArg::Str(s) => JField::Str(s),
            _ => JField::Null,
        },
        FieldRead::Object(kind) => match arg {
            JArg::Null => JField::Null,
            JArg::New(n) => JField::Object(read_back_object(n, kind)),
            _ => JField::Object(JInstance { class_index: None, fields: Seq::empty() }),
        },
    }
}

/// What the probe of an object of `kind` built by `n` reads.
pub open spec fn read_back_object(n: JNew, kind: JavaObjectKind) -> JInstance
    decreases n,
{
    let plan = read_plan_model(kind);
    match class_position(plan, n.class) {
        None => JInstance { class_index: None, fields: Seq::empty() },
        Some(i) => JInstance {
            class_index: Some(i),
            fields: Seq::new(
                plan[i as int].fields.len(),
                |j: int|
                    if 0 <= j < n.args.len() {
                        read_back(n.args[j], plan[i as int].fields[j].read)
                    } else {
                        JField::Null
                    },
            ),
        },
    }
}

/// Reading back the Java object that a location constraint converts to
/// gives the same location constraint.
pub proof fn law_location_constraint_round_trip(location: LocationConstraint)
    ensures
        LocationConstraint::decoded(
            read_back(location.java_value(), FieldRead::Object(JavaObjectKind::LocationConstraint)),
        ) == Ok::<_, crate::from_java::DecodeError>(location.deep_view()),
{
    reveal_strlit("net/mullvad/mullvadvpn/model/LocationConstraint$Country");
    reveal_strlit("net/mullvad/mullvadvpn/model/LocationConstraint$City");
    reveal_strlit("net/mullvad/mullvadvpn/model/LocationConstraint$Hostname");
    let kind = JavaObjectKind::LocationConstraint;
    let plan = read_plan_model(kind);
    assert(plan.drop_first()[0] == plan[1]);
    assert(plan.drop_first().drop_first()[0] == plan[2]);
    let encoded = location.java_value();
    match location {
        LocationConstraint::Country(country) => {
            let n = JNew {
                class: "net/mullvad/mullvadvpn/model/LocationConstraint$Country"@,
                signature: "(Ljava/lang/String;)V"@,
                args: seq![JArg::Str(country@)],
            };
            assert(encoded == JArg::New(n));
            assert(class_position(plan, n.class) == Some(0usize));
            let o = read_back_object(n, kind);
            assert(o.fields.len() == 1);
            assert(o.fields[0] == JField::Str(country@));
        },
        LocationConstraint::City(country, city) => {
            let n = JNew {
                class: "net/mullvad/mullvadvpn/model/LocationConstraint$City"@,
                signature: "(Ljava/lang/String;Ljava/lang/String;)V"@,
                args: seq![JArg::Str(country@), JArg::Str(city@)],
            };
            assert(encoded == JArg::New(n));
            assert(plan[0].class[49] != n.class[49]);
            assert(class_position(plan.drop_first(), n.class) == Some(0usize));
            assert(class_position(plan, n.class) == Some(1usize));
            let o = read_back_object(n, kind);
            assert(o.fields.len() == 2);
            assert(o.fields[0] == JField::Str(country@));
            assert(o.fields[1] == JField::Str(city@));
        },
        LocationConstraint::Hostname(country, city, hostname) => {
            let n = JNew {
                class: "net/mullvad/mullvadvpn/model/LocationConstraint$Hostname"@,
                signature: "(Ljava/lang/String;Ljava/lang/String;Ljava/lang/String;)V"@,
                args: seq![JArg::Str(country@), JArg::Str(city@), JArg::Str(hostname@)],
            };
            assert(encoded == JArg::New(n));
            assert(plan[0].class[48] != n.class[48]);
            assert(plan[1].class[48] != n.class[48]);
            assert(class_position(plan.drop_first().drop_first(), n.class) == Some(0usize));
            assert(class_position(plan.drop_first(), n.class) == Some(1usize));
            assert(class_position(plan, n.class) == Some(2usize));
            let o = read_back_object(n, kind);
            assert(o.fields.len() == 3);
            assert(o.fields[0] == JField::Str(country@));
            assert(o.fields[1] == JField::Str(city@));
            assert(o.fields[2] == JField::Str(hostname@));
        },
    }
}

/// Reading back the Java object that a constraint on the location converts
/// to gives the same constraint.
pub proof fn law_location_choice_round_trip(choice: Constraint<LocationConstraint>)
    ensures
        Constraint::<LocationConstraint>::decoded(
            read_back(choice.java_value(), FieldRead::Object(JavaObjectKind::LocationConstraintChoice)),
        ) == Ok::<_, crate::from_java::DecodeError>(choice.deep_view()),
{
    reveal_strlit("net/mullvad/mullvadvpn/model/Constraint$Any");
    reveal_strlit("net/mullvad/mullvadvpn/model/Constraint$Only");
    let kind = JavaObjectKind::LocationConstraintChoice;
    let plan = read_plan_model(kind);
    assert(plan.drop_first()[0] == plan[1]);
    match choice {
        Constraint::Any => {
            let n = JNew {
                class: "net/mullvad/mullvadvpn/model/Constraint$Any"@,
                signature: "()V"@,
                args: Seq::empty(),
            };
            assert(choice.java_value() == JArg::New(n));
            assert(class_position(plan, n.class) == Some(0usize));
        },
        Constraint::Only(location) => {
            let n = JNew {
                class: "net/mullvad/mullvadvpn/model/Constraint$Only"@,
                signature: "(Ljava/lang/Object;)V"@,
                args: seq![location.java_value()],
            };
            assert(choice.java_value() == JArg::New(n));
            assert(plan[0].class[40] != n.class[40]);
            assert(class_position(plan.drop_first(), n.class) == Some(0usize));
            assert(class_position(plan, n.class) == Some(1usize));
            let o = read_back_object(n, kind);
            assert(o.fields.len() == 1);
            assert(o.fields[0] == read_back(
                location.java_value(),
                FieldRead::Object(JavaObjectKind::LocationConstraint),
            ));
            law_location_constraint_round_trip(location);
        },
    }
}

/// Reading back the Java string that an optional string converts to gives
/// the same optional string: `null` for `None`.
pub proof fn law_optional_string_round_trip(text: Option<String>)
    ensures
        Option::<String>::decoded(read_back(text.java_value(), FieldRead::Str))
            == Ok::<_, crate::from_java::DecodeError>(text.deep_view()),
{
}

/// Every class that the Java value `arg` has an object of built is in
/// `loaded` (a list being built as a `java.util.ArrayList`).
pub open spec fn classes_within(arg: JArg, loaded: Set<Seq<char>>) -> bool
    decreases arg,
{
    match arg {
        JArg::Null => true,
        JArg::Str(_) => true,
        JArg::New(n) => loaded.contains(n.class) && forall|i: int|
            0 <= i < n.args.len() ==> classes_within(#[trigger] n.args[i], loaded),
        JArg::List(items) => loaded.contains("java/util/ArrayList"@) && forall|i: int|
            0 <= i < items.len() ==> classes_within(#[trigger] items[i], loaded),
    }
}

/// The classes loaded up front, as a set.
pub open spec fn loaded_classes() -> Set<Seq<char>> {
    classes_to_load_model().to_set()
}

proof fn lemma_loaded(i: int)
    requires
        0 <= i < classes_to_load_model().len(),
    ensures
        loaded_classes().contains(classes_to_load_model()[i]),
{
}

proof fn lemma_relay_classes(relay: Relay)
    ensures
        classes_within(relay.java_value(), loaded_classes()),
{
    reveal_with_fuel(classes_within, 2);
    lemma_loaded(7);
}

proof fn lemma_city_classes(city: RelayListCity)
    ensures
        classes_within(city.java_value(), loaded_classes()),
{
    reveal_with_fuel(classes_within, 2);
    lemma_loaded(0);
    lemma_loaded(9);
    let relays = city.relays.java_value();
    let items = city.relays@.map_values(|t: Relay| t.java_value());
    assert forall|i: int| 0 <= i < items.len() implies classes_within(
        #[trigger] items[i],
        loaded_classes(),
    ) by {
        lemma_relay_classes(city.relays@[i]);
    }
    assert(classes_within(relays, loaded_classes()));
}

proof fn lemma_country_classes(country: RelayListCountry)
    ensures
        classes_within(country.java_value(), loaded_classes()),
{
    reveal_with_fuel(classes_within, 2);
    lemma_loaded(0);
    lemma_loaded(10);
    let cities = country.cities.java_value();
    let items = country.cities@.map_values(|t: RelayListCity| t.java_value());
    assert forall|i: int| 0 <= i < items.len() implies classes_within(
        #[trigger] items[i],
        loaded_classes(),
    ) by {
        lemma_city_classes(country.cities@[i]);
    }
    assert(classes_within(cities, loaded_classes()));
}

proof fn lemma_location_classes(location: LocationConstraint)
    ensures
        classes_within(location.java_value(), loaded_classes()),
{
    reveal_with_fuel(classes_within, 2);
    lemma_loaded(4);
    lemma_loaded(5);
    lemma_loaded(6);
}

proof fn lemma_relay_settings_classes(settings: RelaySettings)
    ensures
        classes_within(settings.java_value(), loaded_classes()),
{
    reveal_with_fuel(classes_within, 3);
    lemma_loaded(2);
    lemma_loaded(3);
    lemma_loaded(11);
    lemma_loaded(12);
    if let RelaySettings::Normal(constraints) = settings {
        if let Constraint::Only(location) = constraints.location {
            lemma_location_classes(location);
        }
    }
}

/// Every Java object that account data converts to is of a class that is
/// loaded up front.
pub proof fn law_account_data_classes_loaded(data: AccountData)
    ensures
        classes_within(data.java_value(), loaded_classes()),
{
    reveal_with_fuel(classes_within, 2);
    lemma_loaded(1);
}

/// Every Java object that the relay list converts to is of a class that is
/// loaded up front.
pub proof fn law_relay_list_classes_loaded(list: RelayList)
    ensures
        classes_within(list.java_value(), loaded_classes()),
{
    reveal_with_fuel(classes_within, 2);
    lemma_loaded(0);
    lemma_loaded(8);
    let items = list.countries@.map_values(|t: RelayListCountry| t.java_value());
    assert forall|i: int| 0 <= i < items.len() implies classes_within(
        #[trigger] items[i],
        loaded_classes(),
    ) by {
        lemma_country_classes(list.countries@[i]);
    }
    assert(classes_within(list.countries.java_value(), loaded_classes()));
}

/// Every Java object that the settings convert to is of a class that is
/// loaded up front.
pub proof fn law_settings_classes_loaded(settings: Settings)
    ensures
        classes_within(settings.java_value(), loaded_classes()),
{
    reveal_with_fuel(classes_within, 2);
    lemma_loaded(15);
    lemma_relay_settings_classes(settings.relay_settings);
}

/// Every candidate class of every read plan is loaded up front.
pub proof fn law_read_plan_classes_loaded(kind: JavaObjectKind, i: int)
    requires
        0 <= i < read_plan_model(kind).len(),
    ensures
        loaded_classes().contains(read_plan_model(kind)[i].class),
{
    lemma_loaded(2);
    lemma_loaded(3);
    lemma_loaded(4);
    lemma_loaded(5);
    lemma_loaded(6);
    lemma_loaded(13);
    lemma_loaded(14);
}

/// The registry after `names[i]` is recorded with `references[i]`, for each
/// `i` in order, starting from `registry` (as `ClassRegistry::insert` records
/// one name).
pub open spec fn loaded_into<H>(
    registry: Map<Seq<char>, H>,
    names: Seq<Seq<char>>,
    references: Seq<H>,
) -> Map<Seq<char>, H>
    decreases names.len(),
{
    if names.len() == 0 {
        registry
    } else {
        loaded_into(registry, names.drop_last(), references).insert(
            names.last(),
            references[names.len() - 1],
        )
    }
}

proof fn lemma_loaded_into<H>(registry: Map<Seq<char>, H>, names: Seq<Seq<char>>, references: Seq<H>)
    requires
        references.len() == names.len(),
    ensures
        loaded_into(registry, names, references).dom() == registry.dom() + names.to_set(),
        forall|i: int|
            0 <= i < names.len() && (forall|j: int| i < j < names.len() ==> names[j] != names[i])
                ==> #[trigger] loaded_into(registry, names, references)[names[i]] == references[i],
    decreases names.len(),
{
    if names.len() > 0 {
        let rest = names.drop_last();
        lemma_loaded_into(registry, rest, references.drop_last());
        assert(loaded_into(registry, rest, references.drop_last()) == loaded_into(
            registry,
            rest,
            references,
        )) by {
            lemma_loaded_into_agree(registry, rest, references.drop_last(), references);
        }
        assert(names.to_set() =~= rest.to_set().insert(names.last())) by {
            assert forall|x: Seq<char>| names.to_set().contains(x) implies rest.to_set().insert(
                names.last(),
            ).contains(x) by {
                let k = choose|k: int| 0 <= k < names.len() && names[k] == x;
                if k < names.len() - 1 {
                    assert(rest[k] == x);
                }
            }
            assert forall|x: Seq<char>| rest.to_set().insert(names.last()).contains(x) implies names.to_set().contains(x) by {
                if x != names.last() {
                    let k = choose|k: int| 0 <= k < rest.len() && rest[k] == x;
                    assert(names[k] == x);
                } else {
                    assert(names[names.len() - 1] == x);
                }
            }
        }
        assert(loaded_into(registry, names, references).dom() =~= registry.dom() + names.to_set());
        assert forall|i: int|
            0 <= i < names.len() && (forall|j: int| i < j < names.len() ==> names[j] != names[i])
                implies #[trigger] loaded_into(registry, names, references)[names[i]] == references[i] by {
            if i < names.len() - 1 {
                assert(names[names.len() - 1] != names[i]);
                assert(rest[i] == names[i]);
                assert(references.drop_last()[i] == references[i]);
                assert(forall|j: int| i < j < rest.len() ==> rest[j] == names[j]);
            }
        }
    }
}

/// Only the first `names.len()` references are read.
proof fn lemma_loaded_into_agree<H>(
    registry: Map<Seq<char>, H>,
    names: Seq<Seq<char>>,
    first: Seq<H>,
    second: Seq<H>,
)
    requires
        first.len() >= names.len(),
        second.len() >= names.len(),
        forall|i: int| 0 <= i < names.len() ==> first[i] == second[i],
    ensures
        loaded_into(registry, names, first) == loaded_into(registry, names, second),
    decreases names.len(),
{
    if names.len() > 0 {
        lemma_loaded_into_agree(registry, names.drop_last(), first, second);
    }
}

/// Loading the classes up front a second time, with whatever references the
/// second lookups give, leaves the registry with the same class names as
/// after the first loading, each mapped to the reference of the second
/// lookup of that class.
pub proof fn law_loading_classes_twice<H>(first: Seq<H>, second: Seq<H>)
    requires
        first.len() == classes_to_load_model().len(),
        second.len() == classes_to_load_model().len(),
    ensures
        loaded_into(loaded_into(Map::empty(), classes_to_load_model(), first), classes_to_load_model(), second).dom()
            == loaded_into(Map::<Seq<char>, H>::empty(), classes_to_load_model(), first).dom(),
        loaded_into(Map::<Seq<char>, H>::empty(), classes_to_load_model(), first).dom() == loaded_classes(),
        forall|i: int|
            0 <= i < classes_to_load_model().len() ==> loaded_into(
                loaded_into(Map::empty(), classes_to_load_model(), first),
                classes_to_load_model(),
                second,
            )[#[trigger] classes_to_load_model()[i]] == second[i],
{
    let names = classes_to_load_model();
    let once = loaded_into(Map::<Seq<char>, H>::empty(), names, first);
    lemma_loaded_into(Map::<Seq<char>, H>::empty(), names, first);
    lemma_loaded_into(once, names, second);
    assert(once.dom() =~= loaded_classes());
    assert(once.dom() + names.to_set() =~= once.dom());
    lemma_class_names_distinct();
}

/// No class is loaded up front twice.
proof fn lemma_class_names_distinct()
    ensures
        forall|i: int, j: int|
            0 <= i < j < classes_to_load_model().len() ==> classes_to_load_model()[i]
                != classes_to_load_model()[j],
{
    reveal_strlit("java/util/ArrayList");
    reveal_strlit("net/mullvad/mullvadvpn/model/AccountData");
    reveal_strlit("net/mullvad/mullvadvpn/model/Constraint$Any");
    reveal_strlit("net/mullvad/mullvadvpn/model/Constraint$Only");
    reveal_strlit("net/mullvad/mullvadvpn/model/LocationConstraint$City");
    reveal_strlit("net/mullvad/mullvadvpn/model/LocationConstraint$Country");
    reveal_strlit("net/mullvad/mullvadvpn/model/LocationConstraint$Hostname");
    reveal_strlit("net/mullvad/mullvadvpn/model/Relay");
    reveal_strlit("net/mullvad/mullvadvpn/model/RelayList");
    reveal_strlit("net/mullvad/mullvadvpn/model/RelayListCity");
    reveal_strlit("net/mullvad/mullvadvpn/model/RelayListCountry");
    reveal_strlit("net/mullvad/mullvadvpn/model/RelaySettings$CustomTunnelEndpoint");
    reveal_strlit("net/mullvad/mullvadvpn/model/RelaySettings$RelayConstraints");
    reveal_strlit("net/mullvad/mullvadvpn/model/RelaySettingsUpdate$CustomTunnelEndpoint");
    reveal_strlit("net/mullvad/mullvadvpn/model/RelaySettingsUpdate$RelayConstraintsUpdate");
    reveal_strlit("net/mullvad/mullvadvpn/model/Settings");
    let names = classes_to_load_model();
    assert(names[0].len() == 19);
    assert(names[1].len() == 40);
    assert(names[2].len() == 43);
    assert(names[3].len() == 44);
    assert(names[4].len() == 52);
    assert(names[5].len() == 55);
    assert(names[6].len() == 56);
    assert(names[7].len() == 34);
    assert(names[8].len() == 38);
    assert(names[9].len() == 42);
    assert(names[10].len() == 45);
    assert(names[11].len() == 63);
    assert(names[12].len() == 59);
    assert(names[13].len() == 69);
    assert(names[14].len() == 71);
    assert(names[15].len() == 37);
}

} // verus!
