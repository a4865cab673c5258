//! Decoding of probed Java objects into the daemon's data, and the plans
//! that say which Java classes and fields a probe looks at.
use vstd::prelude::*;
use crate::java::{JField, JavaField, JavaInstance, lemma_fields_view};
use crate::model::{
    Constraint, CustomTunnelEndpoint, LocationConstraint, LocationConstraintModel,
    RelayConstraintsUpdate, RelayConstraintsUpdateModel, RelaySettingsUpdate,
    RelaySettingsUpdateModel,
};

verus! {

/// The Java base classes whose objects are told apart by their subclass.
#[derive(Clone, Copy, PartialEq, Eq, Structural, Debug)]
pub enum JavaBaseClass {
    RelaySettingsUpdate,
    Constraint,
    LocationConstraint,
}

/// Why a Java value could not be read as the daemon's data.
#[derive(Clone, Copy, PartialEq, Eq, Structural, Debug)]
pub enum DecodeError {
    /// The object is an instance of none of the subclasses of the base class.
    InvalidSubclass(JavaBaseClass),
    /// A custom tunnel endpoint: reading one from Java is not implemented.
    Unimplemented,
    /// A string that is read is `null`.
    NullString,
    /// The fields of an object are read, but the object is `null`.
    NullObject,
    /// The probed value does not have the shape that the read plan gives it.
    UnexpectedShape,
}

/// A value that can be read from a probed Java value.
pub trait FromJava: Sized + DeepView {
    /// What reading `source` gives: the model of the value, or the error.
    spec fn decoded(source: JField) -> Result<<Self as DeepView>::V, DecodeError>;

    fn from_java(source: JavaField) -> (r: Result<Self, DecodeError>)
        ensures
            decode_view(r) == Self::decoded(source@),
    ;
}

pub open spec fn decode_view<T: DeepView>(r: Result<T, DecodeError>) -> Result<T::V, DecodeError> {
    match r {
        Ok(v) => Ok(v.deep_view()),
        Err(e) => Err(e),
    }
}

impl FromJava for String {
    open spec fn decoded(source: JField) -> Result<Seq<char>, DecodeError> {
        match source {
            JField::Str(s) => Ok(s),
            JField::Null => Err(DecodeError::NullString),
            JField::Object(_) => Err(DecodeError::UnexpectedShape),
        }
    }

    fn from_java(source: JavaField) -> (r: Result<String, DecodeError>) {
        match source {
            JavaField::Str(s) => Ok(s),
            JavaField::Null => Err(DecodeError::NullString),
            JavaField::Object(_) => Err(DecodeError::UnexpectedShape),
        }
    }
}

impl<T: FromJava> FromJava for Option<T> {
    /// `null` reads as `None`; anything else as what `T` reads it as.
    open spec fn decoded(source: JField) -> Result<Option<<T as DeepView>::V>, DecodeError> {
        match source {
            JField::Null => Ok(None),
            _ => match T::decoded(source) {
                Ok(v) => Ok(Some(v)),
                Err(e) => Err(e),
            },
        }
    }

    fn from_java(source: JavaField) -> (r: Result<Option<T>, DecodeError>) {
        match source {
            JavaField::Null => Ok(None),
            _ => match T::from_java(source) {
                Ok(v) => Ok(Some(v)),
                Err(e) => Err(e),
            },
        }
    }
}

/// Takes the single value of `fields`.
fn take_one(fields: Vec<JavaField>) -> (r: JavaField)
    requires
        fields@.len() == 1,
    ensures
        r == fields@[0],
{
    let mut fields = fields;
    fields.pop().unwrap()
}

/// Takes the two values of `fields`, in order.
fn take_two(fields: Vec<JavaField>) -> (r: (JavaField, JavaField))
    requires
        fields@.len() == 2,
    ensures
        r.0 == fields@[0],
        r.1 == fields@[1],
{
    let mut fields = fields;
    let second = fields.pop().unwrap();
    let first = fields.pop().unwrap();
    (first, second)
}

/// Takes the three values of `fields`, in order.
fn take_three(fields: Vec<JavaField>) -> (r: (JavaField, JavaField, JavaField))
    requires
        fields@.len() == 3,
    ensures
        r.0 == fields@[0],
        r.1 == fields@[1],
        r.2 == fields@[2],
{
    let mut fields = fields;
    let third = fields.pop().unwrap();
    let second = fields.pop().unwrap();
    let first = fields.pop().unwrap();
    (first, second, third)
}

impl FromJava for LocationConstraint {
    /// By the first subclass matched: a country, a city or a host, with the
    /// string fields read in the plan's order. A `null` object is an instance
    /// of every class to JNI, so it matches the first one, whose field cannot
    /// be read.
    open spec fn decoded(source: JField) -> Result<LocationConstraintModel, DecodeError> {
        match source {
            JField::Null => Err(DecodeError::NullObject),
            JField::Str(_) => Err(DecodeError::UnexpectedShape),
            JField::Object(o) => match o.class_index {
                None => Err(DecodeError::InvalidSubclass(JavaBaseClass::LocationConstraint)),
                Some(index) => if index == 0 && o.fields.len() == 1 {
                    match String::decoded(o.fields[0]) {
                        Ok(country) => Ok(LocationConstraintModel::Country(country)),
                        Err(e) => Err(e),
                    }
                } else if index == 1 && o.fields.len() == 2 {
                    match (String::decoded(o.fields[0]), String::decoded(o.fields[1])) {
                        (Ok(country), Ok(city)) => Ok(LocationConstraintModel::City(country, city)),
                        (Err(e), _) => Err(e),
                        (_, Err(e)) => Err(e),
                    }
                } else if index == 2 && o.fields.len() == 3 {
                    match (
                        String::decoded(o.fields[0]),
                        String::decoded(o.fields[1]),
                        String::decoded(o.fields[2]),
                    ) {
                        (Ok(country), Ok(city), Ok(hostname)) => Ok(
                            LocationConstraintModel::Hostname(country, city, hostname),
                        ),
                        (Err(e), _, _) => Err(e),
                        (_, Err(e), _) => Err(e),
                        (_, _, Err(e)) => Err(e),
                    }
                } else {
                    Err(DecodeError::UnexpectedShape)
                },
            },
        }
    }

    fn from_java(source: JavaField) -> (r: Result<LocationConstraint, DecodeError>) {
        match source {
            JavaField::Null => Err(DecodeError::NullObject),
            JavaField::Str(_) => Err(DecodeError::UnexpectedShape),
            JavaField::Object(instance) => {
                proof {
                    lemma_fields_view(instance.fields@);
                }
                let JavaInstance { class_index, fields } = instance;
                match class_index {
                    None => Err(DecodeError::InvalidSubclass(JavaBaseClass::LocationConstraint)),
                    Some(index) => {
                        if index == 0 && fields.len() == 1 {
                            let country = take_one(fields);
                            match String::from_java(country) {
                                Ok(country) => Ok(LocationConstraint::Country(country)),
                                Err(e) => Err(e),
                            }
                        } else if index == 1 && fields.len() == 2 {
                            let (country, city) = take_two(fields);
                            let country = String::from_java(country);
                            let city = String::from_java(city);
                            match (country, city) {
                                (Ok(country), Ok(city)) => Ok(LocationConstraint::City(country, city)),
                                (Err(e), _) => Err(e),
                                (_, Err(e)) => Err(e),
                            }
                        } else if index == 2 && fields.len() == 3 {
                            let (country, city, hostname) = take_three(fields);
                            let country = String::from_java(country);
                            let city = String::from_java(city);
                            let hostname = String::from_java(hostname);
                            match (country, city, hostname) {
                                (Ok(country), Ok(city), Ok(hostname)) => Ok(
                                    LocationConstraint::Hostname(country, city, hostname),
                                ),
                                (Err(e), _, _) => Err(e),
                                (_, Err(e), _) => Err(e),
                                (_, _, Err(e)) => Err(e),
                            }
                        } else {
                            Err(DecodeError::UnexpectedShape)
                        }
                    },
                }
            },
        }
    }
}

impl<T: FromJava> FromJava for Constraint<T> {
    /// `Any`, or `Only` of what `T` reads the `value` field as. A `null`
    /// object is an instance of every class to JNI, so it reads as `Any`.
    open spec fn decoded(source: JField) -> Result<Constraint<<T as DeepView>::V>, DecodeError> {
        match source {
            JField::Null => Ok(Constraint::Any),
            JField::Str(_) => Err(DecodeError::UnexpectedShape),
            JField::Object(o) => match o.class_index {
                None => Err(DecodeError::InvalidSubclass(JavaBaseClass::Constraint)),
                Some(index) => if index == 0 {
                    Ok(Constraint::Any)
                } else if index == 1 && o.fields.len() == 1 {
                    match T::decoded(o.fields[0]) {
                        Ok(value) => Ok(Constraint::Only(value)),
                        Err(e) => Err(e),
                    }
                } else {
                    Err(DecodeError::UnexpectedShape)
                },
            },
        }
    }

    fn from_java(source: JavaField) -> (r: Result<Constraint<T>, DecodeError>) {
        match source {
            JavaField::Null => Ok(Constraint::Any),
            JavaField::Str(_) => Err(DecodeError::UnexpectedShape),
            JavaField::Object(instance) => {
                proof {
                    lemma_fields_view(instance.fields@);
                }
                let JavaInstance { class_index, fields } = instance;
                match class_index {
                    None => Err(DecodeError::InvalidSubclass(JavaBaseClass::Constraint)),
                    Some(index) => {
                        if index == 0 {
                            Ok(Constraint::Any)
                        } else if index == 1 && fields.len() == 1 {
                            let value = take_one(fields);
                            match T::from_java(value) {
                                Ok(value) => Ok(Constraint::Only(value)),
                                Err(e) => Err(e),
                            }
                        } else {
                            Err(DecodeError::UnexpectedShape)
                        }
                    },
                }
            },
        }
    }
}

impl FromJava for CustomTunnelEndpoint {
    /// Reading a custom tunnel endpoint from Java is not implemented.
    open spec fn decoded(source: JField) -> Result<CustomTunnelEndpoint, DecodeError> {
        Err(DecodeError::Unimplemented)
    }

    fn from_java(source: JavaField) -> (r: Result<CustomTunnelEndpoint, DecodeError>) {
        Err(DecodeError::Unimplemented)
    }
}

impl FromJava for RelayConstraintsUpdate {
    /// The `location` field, read as an optional location constraint.
    open spec fn decoded(source: JField) -> Result<RelayConstraintsUpdateModel, DecodeError> {
        match source {
            JField::Null => Err(DecodeError::NullObject),
            JField::Str(_) => Err(DecodeError::UnexpectedShape),
            JField::Object(o) => if o.fields.len() == 1 {
                match Option::<Constraint<LocationConstraint>>::decoded(o.fields[0]) {
                    Ok(location) => Ok(RelayConstraintsUpdateModel { location }),
                    Err(e) => Err(e),
                }
            } else {
                Err(DecodeError::UnexpectedShape)
            },
        }
    }

    fn from_java(source: JavaField) -> (r: Result<RelayConstraintsUpdate, DecodeError>) {
        match source {
            JavaField::Null => Err(DecodeError::NullObject),
            JavaField::Str(_) => Err(DecodeError::UnexpectedShape),
            JavaField::Object(instance) => {
                proof {
                    lemma_fields_view(instance.fields@);
                }
                let JavaInstance { class_index: _, fields } = instance;
                if fields.len() == 1 {
                    let location = take_one(fields);
                    match Option::<Constraint<LocationConstraint>>::from_java(location) {
                        Ok(location) => Ok(RelayConstraintsUpdate { location }),
                        Err(e) => Err(e),
                    }
                } else {
                    Err(DecodeError::UnexpectedShape)
                }
            },
        }
    }
}

impl FromJava for RelaySettingsUpdate {
    /// A custom tunnel endpoint (not implemented) or constraints, by the
    /// first subclass matched. A `null` object is an instance of every class
    /// to JNI, so it is taken for a custom tunnel endpoint.
    open spec fn decoded(source: JField) -> Result<RelaySettingsUpdateModel, DecodeError> {
        match source {
            JField::Null => Err(DecodeError::Unimplemented),
            JField::Str(_) => Err(DecodeError::UnexpectedShape),
            JField::Object(o) => match o.class_index {
                None => Err(DecodeError::InvalidSubclass(JavaBaseClass::RelaySettingsUpdate)),
                Some(index) => if index == 0 {
                    Err(DecodeError::Unimplemented)
                } else if index == 1 {
                    match RelayConstraintsUpdate::decoded(source) {
                        Ok(update) => Ok(RelaySettingsUpdateModel::Normal(update)),
                        Err(e) => Err(e),
                    }
                } else {
                    Err(DecodeError::UnexpectedShape)
                },
            },
        }
    }

    fn from_java(source: JavaField) -> (r: Result<RelaySettingsUpdate, DecodeError>) {
        let index = match &source {
            JavaField::Null => None,
            JavaField::Str(_) => {
                return Err(DecodeError::UnexpectedShape);
            },
            JavaField::Object(instance) => match instance.class_index {
                None => {
                    return Err(DecodeError::InvalidSubclass(JavaBaseClass::RelaySettingsUpdate));
                },
                Some(index) => Some(index),
            },
        };
        match index {
            None => match CustomTunnelEndpoint::from_java(source) {
                Ok(endpoint) => Ok(RelaySettingsUpdate::CustomTunnelEndpoint(endpoint)),
                Err(e) => Err(e),
            },
            Some(index) => {
                if index == 0 {
                    match CustomTunnelEndpoint::from_java(source) {
                        Ok(endpoint) => Ok(RelaySettingsUpdate::CustomTunnelEndpoint(endpoint)),
                        Err(e) => Err(e),
                    }
                } else if index == 1 {
                    match RelayConstraintsUpdate::from_java(source) {
                        Ok(update) => Ok(RelaySettingsUpdate::Normal(update)),
                        Err(e) => Err(e),
                    }
                } else {
                    Err(DecodeError::UnexpectedShape)
                }
            },
        }
    }
}

/// The kinds of Java objects that are read, each by the subclasses it may
/// have.
#[derive(Clone, Copy, PartialEq, Eq, Structural, Debug)]
pub enum JavaObjectKind {
    /// A `RelaySettingsUpdate`.
    RelaySettingsUpdate,
    /// A `Constraint` whose value is a `LocationConstraint`.
    LocationConstraintChoice,
    /// A `LocationConstraint`.
    LocationConstraint,
}

/// How the value of a field is read: as a string, or as an object of the
/// given kind (each read giving `null` where the reference is null).
#[derive(Clone, Copy, PartialEq, Eq, Structural, Debug)]
pub enum FieldRead {
    Str,
    Object(JavaObjectKind),
}

/// A field to read: its name, its JNI type signature, and how its value is
/// read.
#[derive(Debug, Clone, PartialEq, Eq)]
pub struct FieldPlan {
    pub name: String,
    pub signature: String,
    pub read: FieldRead,
}

pub struct FieldPlanModel {
    pub name: Seq<char>,
    pub signature: Seq<char>,
    pub read: FieldRead,
}

impl DeepView for FieldPlan {
    type V = FieldPlanModel;

    open spec fn deep_view(&self) -> FieldPlanModel {
        FieldPlanModel { name: self.name@, signature: self.signature@, read: self.read }
    }
}

/// A candidate subclass, by its JNI name, with the fields read from an
/// instance of it, in order.
#[derive(Debug, Clone, PartialEq, Eq)]
pub struct ClassPlan {
    pub class: String,
    pub fields: Vec<FieldPlan>,
}

pub struct ClassPlanModel {
    pub class: Seq<char>,
    pub fields: Seq<FieldPlanModel>,
}

impl DeepView for ClassPlan {
    type V = ClassPlanModel;

    open spec fn deep_view(&self) -> ClassPlanModel {
        ClassPlanModel { class: self.class@, fields: self.fields.deep_view() }
    }
}

pub open spec fn string_field(name: Seq<char>) -> FieldPlanModel {
    FieldPlanModel { name, signature: "Ljava/lang/String;"@, read: FieldRead::Str }
}

/// The candidate subclasses of each kind of object, in the order in which an
/// object is tested against them, and the fields read for each.
pub open spec fn read_plan_model(kind: JavaObjectKind) -> Seq<ClassPlanModel> {
    match kind {
        JavaObjectKind::RelaySettingsUpdate => seq![
            ClassPlanModel {
                class: "net/mullvad/mullvadvpn/model/RelaySettingsUpdate$CustomTunnelEndpoint"@,
                fields: seq![],
            },
            ClassPlanModel {
                class: "net/mullvad/mullvadvpn/model/RelaySettingsUpdate$RelayConstraintsUpdate"@,
                fields: seq![
                    FieldPlanModel {
                        name: "location"@,
                        signature: "Lnet/mullvad/mullvadvpn/model/Constraint;"@,
                        read: FieldRead::Object(JavaObjectKind::LocationConstraintChoice),
                    },
                ],
            },
        ],
        JavaObjectKind::LocationConstraintChoice => seq![
            ClassPlanModel { class: "net/mullvad/mullvadvpn/model/Constraint$Any"@, fields: seq![] },
            ClassPlanModel {
                class: "net/mullvad/mullvadvpn/model/Constraint$Only"@,
                fields: seq![
                    FieldPlanModel {
                        name: "value"@,
                        signature: "Ljava/lang/Object;"@,
                        read: FieldRead::Object(JavaObjectKind::LocationConstraint),
                    },
                ],
            },
        ],
        JavaObjectKind::LocationConstraint => seq![
            ClassPlanModel {
                class: "net/mullvad/mullvadvpn/model/LocationConstraint$Country"@,
                fields: seq![string_field("countryCode"@)],
            },
            ClassPlanModel {
                class: "net/mullvad/mullvadvpn/model/LocationConstraint$City"@,
                fields: seq![string_field("countryCode"@), string_field("cityCode"@)],
            },
            ClassPlanModel {
                class: "net/mullvad/mullvadvpn/model/LocationConstraint$Hostname"@,
                fields: seq![
                    string_field("countryCode"@),
                    string_field("cityCode"@),
                    string_field("hostname"@),
                ],
            },
        ],
    }
}

fn field_plan(name: &str, signature: &str, read: FieldRead) -> (r: FieldPlan)
    ensures
        r.deep_view() == (FieldPlanModel { name: name@, signature: signature@, read }),
{
    FieldPlan { name: String::from_str(name), signature: String::from_str(signature), read }
}

fn class_plan(class: &str, fields: Vec<FieldPlan>) -> (r: ClassPlan)
    ensures
        r.deep_view() == (ClassPlanModel { class: class@, fields: fields.deep_view() }),
{
    ClassPlan { class: String::from_str(class), fields }
}

/// Which subclasses an object of `kind` is tested against, in order, and
/// which fields are read from an instance of each.
pub fn read_plan(kind: JavaObjectKind) -> (r: Vec<ClassPlan>)
    ensures
        r.deep_view() == read_plan_model(kind),
{
    let mut plan: Vec<ClassPlan> = Vec::new();
    match kind {
        JavaObjectKind::RelaySettingsUpdate => {
            let none: Vec<FieldPlan> = Vec::new();
            assert(none.deep_view() =~= seq![]);
            plan.push(class_plan("net/mullvad/mullvadvpn/model/RelaySettingsUpdate$CustomTunnelEndpoint", none));
            let mut fields = Vec::new();
            fields.push(field_plan("location", "Lnet/mullvad/mullvadvpn/model/Constraint;", FieldRead::Object(JavaObjectKind::LocationConstraintChoice)));
            assert(fields.deep_view() =~= read_plan_model(kind)[1].fields);
            plan.push(class_plan("net/mullvad/mullvadvpn/model/RelaySettingsUpdate$RelayConstraintsUpdate", fields));
        },
        JavaObjectKind::LocationConstraintChoice => {
            let none: Vec<FieldPlan> = Vec::new();
            assert(none.deep_view() =~= seq![]);
            plan.push(class_plan("net/mullvad/mullvadvpn/model/Constraint$Any", none));
            let mut fields = Vec::new();
            fields.push(field_plan("value", "Ljava/lang/Object;", FieldRead::Object(JavaObjectKind::LocationConstraint)));
            assert(fields.deep_view() =~= read_plan_model(kind)[1].fields);
            plan.push(class_plan("net/mullvad/mullvadvpn/model/Constraint$Only", fields));
        },
        JavaObjectKind::LocationConstraint => {
            let mut country = Vec::new();
            country.push(field_plan("countryCode", "Ljava/lang/String;", FieldRead::Str));
            assert(country.deep_view() =~= read_plan_model(kind)[0].fields);
            plan.push(class_plan("net/mullvad/mullvadvpn/model/LocationConstraint$Country", country));
            let mut city = Vec::new();
            city.push(field_plan("countryCode", "Ljava/lang/String;", FieldRead::Str));
            city.push(field_plan("cityCode", "Ljava/lang/String;", FieldRead::Str));
            assert(city.deep_view() =~= read_plan_model(kind)[1].fields);
            plan.push(class_plan("net/mullvad/mullvadvpn/model/LocationConstraint$City", city));
            let mut host = Vec::new();
            host.push(field_plan("countryCode", "Ljava/lang/String;", FieldRead::Str));
            host.push(field_plan("cityCode", "Ljava/lang/String;", FieldRead::Str));
            host.push(field_plan("hostname", "Ljava/lang/String;", FieldRead::Str));
            assert(host.deep_view() =~= read_plan_model(kind)[2].fields);
            plan.push(class_plan("net/mullvad/mullvadvpn/model/LocationConstraint$Hostname", host));
        },
    }
    assert(plan.deep_view() =~= read_plan_model(kind));
    plan
}

} // verus!
