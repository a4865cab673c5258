//! The values that pass between this library and the Java side: constructor
//! calls that the library asks for, and the probed contents of Java objects
//! that the library decodes.
use vstd::prelude::*;

verus! {

/// A value handed to Java: `null`, a string, a new object, or a new
/// `java.util.ArrayList` of values.
pub enum JArg {
    Null,
    Str(Seq<char>),
    New(JNew),
    List(Seq<JArg>),
}

/// A call of the constructor with JNI `signature` of the Java class named
/// (in JNI form) `class`, on `args`.
pub struct JNew {
    pub class: Seq<char>,
    pub signature: Seq<char>,
    pub args: Seq<JArg>,
}

/// The executable form of [`JArg`].
#[derive(Debug, PartialEq, Eq)]
pub enum JavaArg {
    Null,
    Str(String),
    New(JavaNew),
    List(Vec<JavaArg>),
}

/// The executable form of [`JNew`].
#[derive(Debug, PartialEq, Eq)]
pub struct JavaNew {
    pub class: String,
    pub signature: String,
    pub args: Vec<JavaArg>,
}

pub open spec fn args_view(args: Seq<JavaArg>) -> Seq<JArg>
    decreases args,
{
    Seq::new(args.len(), |i: int| if 0 <= i < args.len() { arg_view(args[i]) } else { JArg::Null })
}

pub open spec fn arg_view(a: JavaArg) -> JArg
    decreases a,
{
    match a {
        JavaArg::Null => JArg::Null,
        JavaArg::Str(s) => JArg::Str(s@),
        JavaArg::New(n) => JArg::New(new_view(n)),
        JavaArg::List(v) => JArg::List(args_view(v@)),
    }
}

pub open spec fn new_view(n: JavaNew) -> JNew
    decreases n,
{
    JNew { class: n.class@, signature: n.signature@, args: args_view(n.args@) }
}

impl View for JavaArg {
    type V = JArg;

    open spec fn view(&self) -> JArg {
        arg_view(*self)
    }
}

impl View for JavaNew {
    type V = JNew;

    open spec fn view(&self) -> JNew {
        new_view(*self)
    }
}

/// What was read from a Java field or a reference that the library decodes:
/// `null`, the characters of a string, or a probed object.
pub enum JField {
    Null,
    Str(Seq<char>),
    Object(JInstance),
}

/// A probed Java object: `class_index` is the position, in the read plan of
/// the kind of object expected, of the first candidate class that the object
/// is an instance of (`None` when it is an instance of none of them), and
/// `fields` holds the values of the fields that the plan lists for that
/// class, in the plan's order.
pub struct JInstance {
    pub class_index: Option<usize>,
    pub fields: Seq<JField>,
}

/// The executable form of [`JField`].
#[derive(Debug, PartialEq, Eq)]
pub enum JavaField {
    Null,
    Str(String),
    Object(JavaInstance),
}

/// The executable form of [`JInstance`].
#[derive(Debug, PartialEq, Eq)]
pub struct JavaInstance {
    pub class_index: Option<usize>,
    pub fields: Vec<JavaField>,
}

pub open spec fn fields_view(fields: Seq<JavaField>) -> Seq<JField>
    decreases fields,
{
    Seq::new(
        fields.len(),
        |i: int| if 0 <= i < fields.len() { field_view(fields[i]) } else { JField::Null },
    )
}

pub open spec fn field_view(f: JavaField) -> JField
    decreases f,
{
    match f {
        JavaField::Null => JField::Null,
        JavaField::Str(s) => JField::Str(s@),
        JavaField::Object(o) => JField::Object(instance_view(o)),
    }
}

pub open spec fn instance_view(o: JavaInstance) -> JInstance
    decreases o,
{
    JInstance { class_index: o.class_index, fields: fields_view(o.fields@) }
}

impl View for JavaField {
    type V = JField;

    open spec fn view(&self) -> JField {
        field_view(*self)
    }
}

impl View for JavaInstance {
    type V = JInstance;

    open spec fn view(&self) -> JInstance {
        instance_view(*self)
    }
}

/// The view of a sequence of fields is the sequence of their views.
pub proof fn lemma_fields_view(v: Seq<JavaField>)
    ensures
        fields_view(v).len() == v.len(),
        forall|i: int| 0 <= i < v.len() ==> #[trigger] fields_view(v)[i] == field_view(v[i]),
{
}

} // verus!
