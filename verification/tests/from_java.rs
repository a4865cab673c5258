use mullvad_jni::from_java::{
    ClassPlan, DecodeError, FieldPlan, FieldRead, JavaBaseClass, JavaObjectKind, read_plan,
};
use mullvad_jni::java::{JavaArg, JavaField, JavaInstance};
use mullvad_jni::model::{
    Constraint, CustomTunnelEndpoint, LocationConstraint, RelayConstraintsUpdate,
    RelaySettingsUpdate,
};
use mullvad_jni::{FromJava, IntoJava};

fn text(value: &str) -> JavaField {
    JavaField::Str(value.to_string())
}

fn object(class_index: Option<usize>, fields: Vec<JavaField>) -> JavaField {
    JavaField::Object(JavaInstance { class_index, fields })
}

fn field(name: &str, signature: &str, read: FieldRead) -> FieldPlan {
    FieldPlan { name: name.to_string(), signature: signature.to_string(), read }
}

fn class(name: &str, fields: Vec<FieldPlan>) -> ClassPlan {
    ClassPlan { class: name.to_string(), fields }
}

#[test]
fn string_reads_text_and_rejects_null() {
    assert_eq!(String::from_java(text("se")), Ok("se".to_string()));
    assert_eq!(String::from_java(JavaField::Null), Err(DecodeError::NullString));
    assert_eq!(
        String::from_java(object(Some(0), vec![])),
        Err(DecodeError::UnexpectedShape)
    );
}

#[test]
fn optional_string_reads_null_as_none() {
    assert_eq!(Option::<String>::from_java(JavaField::Null), Ok(None));
    assert_eq!(Option::<String>::from_java(text("1234")), Ok(Some("1234".to_string())));
}

#[test]
fn location_constraint_reads_each_subclass() {
    assert_eq!(
        LocationConstraint::from_java(object(Some(0), vec![text("se")])),
        Ok(LocationConstraint::Country("se".to_string()))
    );
    assert_eq!(
        LocationConstraint::from_java(object(Some(1), vec![text("se"), text("got")])),
        Ok(LocationConstraint::City("se".to_string(), "got".to_string()))
    );
    assert_eq!(
        LocationConstraint::from_java(object(
            Some(2),
            vec![text("se"), text("got"), text("se-got-001")]
        )),
        Ok(LocationConstraint::Hostname(
            "se".to_string(),
            "got".to_string(),
            "se-got-001".to_string()
        ))
    );
}

#[test]
fn location_constraint_errors() {
    assert_eq!(
        LocationConstraint::from_java(object(None, vec![])),
        Err(DecodeError::InvalidSubclass(JavaBaseClass::LocationConstraint))
    );
    assert_eq!(
        LocationConstraint::from_java(object(Some(1), vec![text("se"), JavaField::Null])),
        Err(DecodeError::NullString)
    );
    assert_eq!(LocationConstraint::from_java(JavaField::Null), Err(DecodeError::NullObject));
    assert_eq!(
        LocationConstraint::from_java(object(Some(2), vec![text("se")])),
        Err(DecodeError::UnexpectedShape)
    );
    assert_eq!(
        LocationConstraint::from_java(object(Some(3), vec![])),
        Err(DecodeError::UnexpectedShape)
    );
}

#[test]
fn constraint_reads_any_and_only() {
    assert_eq!(
        Constraint::<LocationConstraint>::from_java(object(Some(0), vec![])),
        Ok(Constraint::Any)
    );
    assert_eq!(
        Constraint::<LocationConstraint>::from_java(object(
            Some(1),
            vec![object(Some(0), vec![text("no")])]
        )),
        Ok(Constraint::Only(LocationConstraint::Country("no".to_string())))
    );
    assert_eq!(
        Constraint::<LocationConstraint>::from_java(object(None, vec![])),
        Err(DecodeError::InvalidSubclass(JavaBaseClass::Constraint))
    );
}

#[test]
fn null_constraint_reads_as_any() {
    assert_eq!(Constraint::<LocationConstraint>::from_java(JavaField::Null), Ok(Constraint::Any));
}

#[test]
fn custom_tunnel_endpoint_is_not_read() {
    assert_eq!(
        CustomTunnelEndpoint::from_java(object(Some(0), vec![])),
        Err(DecodeError::Unimplemented)
    );
}

#[test]
fn relay_constraints_update_reads_optional_location() {
    assert_eq!(
        RelayConstraintsUpdate::from_java(object(Some(1), vec![JavaField::Null])),
        Ok(RelayConstraintsUpdate { location: None })
    );
    assert_eq!(
        RelayConstraintsUpdate::from_java(object(Some(1), vec![object(Some(0), vec![])])),
        Ok(RelayConstraintsUpdate { location: Some(Constraint::Any) })
    );
}

#[test]
fn relay_settings_update_reads_by_subclass() {
    assert_eq!(
        RelaySettingsUpdate::from_java(object(Some(0), vec![])),
        Err(DecodeError::Unimplemented)
    );
    assert_eq!(
        RelaySettingsUpdate::from_java(object(
            Some(1),
            vec![object(Some(1), vec![object(Some(1), vec![text("se"), text("mma")])])]
        )),
        Ok(RelaySettingsUpdate::Normal(RelayConstraintsUpdate {
            location: Some(Constraint::Only(LocationConstraint::City(
                "se".to_string(),
                "mma".to_string()
            )))
        }))
    );
    assert_eq!(
        RelaySettingsUpdate::from_java(object(None, vec![])),
        Err(DecodeError::InvalidSubclass(JavaBaseClass::RelaySettingsUpdate))
    );
    assert_eq!(RelaySettingsUpdate::from_java(JavaField::Null), Err(DecodeError::Unimplemented));
}

#[test]
fn read_plans_list_classes_and_fields() {
    assert_eq!(
        read_plan(JavaObjectKind::RelaySettingsUpdate),
        vec![
            class("net/mullvad/mullvadvpn/model/RelaySettingsUpdate$CustomTunnelEndpoint", vec![]),
            class(
                "net/mullvad/mullvadvpn/model/RelaySettingsUpdate$RelayConstraintsUpdate",
                vec![field(
                    "location",
                    "Lnet/mullvad/mullvadvpn/model/Constraint;",
                    FieldRead::Object(JavaObjectKind::LocationConstraintChoice)
                )]
            ),
        ]
    );
    assert_eq!(
        read_plan(JavaObjectKind::LocationConstraintChoice),
        vec![
            class("net/mullvad/mullvadvpn/model/Constraint$Any", vec![]),
            class(
                "net/mullvad/mullvadvpn/model/Constraint$Only",
                vec![field(
                    "value",
                    "Ljava/lang/Object;",
                    FieldRead::Object(JavaObjectKind::LocationConstraint)
                )]
            ),
        ]
    );
    let string = |name: &str| field(name, "Ljava/lang/String;", FieldRead::Str);
    assert_eq!(
        read_plan(JavaObjectKind::LocationConstraint),
        vec![
            class("net/mullvad/mullvadvpn/model/LocationConstraint$Country", vec![string("countryCode")]),
            class(
                "net/mullvad/mullvadvpn/model/LocationConstraint$City",
                vec![string("countryCode"), string("cityCode")]
            ),
            class(
                "net/mullvad/mullvadvpn/model/LocationConstraint$Hostname",
                vec![string("countryCode"), string("cityCode"), string("hostname")]
            ),
        ]
    );
}

/// What probing, by the read plans, an object built from `arg` reads, where
/// each constructor stores its arguments in the planned fields, in order.
fn read_back(arg: &JavaArg, read: FieldRead) -> JavaField {
    match (read, arg) {
        (FieldRead::Str, JavaArg::Str(s)) => JavaField::Str(s.clone()),
        (FieldRead::Str, _) => JavaField::Null,
        (FieldRead::Object(_), JavaArg::Null) => JavaField::Null,
        (FieldRead::Object(kind), JavaArg::New(n)) => {
            let plan = read_plan(kind);
            match plan.iter().position(|c| c.class == n.class) {
                None => object(None, vec![]),
                Some(i) => object(
                    Some(i),
                    plan[i]
                        .fields
                        .iter()
                        .zip(n.args.iter())
                        .map(|(f, a)| read_back(a, f.read))
                        .collect(),
                ),
            }
        }
        (FieldRead::Object(_), _) => object(None, vec![]),
    }
}

#[test]
fn location_constraints_read_back_as_converted() {
    let values = vec![
        LocationConstraint::Country("se".to_string()),
        LocationConstraint::City("se".to_string(), "got".to_string()),
        LocationConstraint::Hostname("se".to_string(), "got".to_string(), "se-got-001".to_string()),
    ];
    for value in values {
        let java = value.clone().into_java();
        let read = read_back(&java, FieldRead::Object(JavaObjectKind::LocationConstraint));
        assert_eq!(LocationConstraint::from_java(read), Ok(value));
    }
}

#[test]
fn location_choices_read_back_as_converted() {
    let values = vec![
        Constraint::Any,
        Constraint::Only(LocationConstraint::City("de".to_string(), "ber".to_string())),
    ];
    for value in values {
        let java = value.clone().into_java();
        let read = read_back(&java, FieldRead::Object(JavaObjectKind::LocationConstraintChoice));
        assert_eq!(Constraint::<LocationConstraint>::from_java(read), Ok(value));
    }
}

#[test]
fn optional_strings_read_back_as_converted() {
    for value in [None, Some("1234".to_string())] {
        let java = value.clone().into_java();
        assert_eq!(Option::<String>::from_java(read_back(&java, FieldRead::Str)), Ok(value));
    }
}
