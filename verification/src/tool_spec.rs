//! How a tool is described to a model, and what it is called with.

use crate::protocol::FunctionCallError;
use crate::text::texts;
use vstd::prelude::*;

verus! {

/// The kinds of values that a tool takes or gives.
#[derive(Debug, PartialEq, Eq)]
pub enum ValueKind {
    Text,
    Integer,
    Boolean,
    TextList,
    /// One of the given texts.
    Choice(Vec<String>),
}

/// A named value that a tool takes or gives.
#[derive(Debug, PartialEq, Eq)]
pub struct ToolProperty {
    pub name: String,
    pub kind: ValueKind,
    pub description: String,
}

/// The values that a tool takes or gives.
#[derive(Debug, PartialEq, Eq)]
pub struct ObjectSchema {
    /// In the order of their names.
    pub properties: Vec<ToolProperty>,
    pub required: Vec<String>,
    pub additional_properties: Option<bool>,
}

/// A tool that a model can call.
#[derive(Debug, PartialEq, Eq)]
pub struct FunctionTool {
    pub name: String,
    pub description: String,
    pub strict: bool,
    pub parameters: ObjectSchema,
    pub output_schema: Option<ObjectSchema>,
}

/// The mathematical content of a `ValueKind`.
pub enum KindView {
    Text,
    Integer,
    Boolean,
    TextList,
    Choice(Seq<Seq<char>>),
}

/// The mathematical content of a `ToolProperty`.
pub struct PropertyView {
    pub name: Seq<char>,
    pub kind: KindView,
    pub description: Seq<char>,
}

/// The mathematical content of an `ObjectSchema`.
#[verifier::ext_equal]
pub struct SchemaView {
    pub properties: Seq<PropertyView>,
    pub required: Seq<Seq<char>>,
    pub additional_properties: Option<bool>,
}

/// The mathematical content of a `FunctionTool`.
pub struct ToolView {
    pub name: Seq<char>,
    pub description: Seq<char>,
    pub strict: bool,
    pub parameters: SchemaView,
    pub output_schema: Option<SchemaView>,
}

impl View for ValueKind {
    type V = KindView;

    open spec fn view(&self) -> KindView {
        match self {
            ValueKind::Text => KindView::Text,
            ValueKind::Integer => KindView::Integer,
            ValueKind::Boolean => KindView::Boolean,
            ValueKind::TextList => KindView::TextList,
            ValueKind::Choice(options) => KindView::Choice(texts(options@)),
        }
    }
}

impl View for ToolProperty {
    type V = PropertyView;

    open spec fn view(&self) -> PropertyView {
        PropertyView {
            name: self.name@,
            kind: self.kind@,
            description: self.description@,
        }
    }
}

impl View for ObjectSchema {
    type V = SchemaView;

    open spec fn view(&self) -> SchemaView {
        SchemaView {
            properties: self.properties@.map_values(|p: ToolProperty| p@),
            required: texts(self.required@),
            additional_properties: self.additional_properties,
        }
    }
}

impl View for FunctionTool {
    type V = ToolView;

    open spec fn view(&self) -> ToolView {
        ToolView {
            name: self.name@,
            description: self.description@,
            strict: self.strict,
            parameters: self.parameters@,
            output_schema: match self.output_schema {
                Some(schema) => Some(schema@),
                None => None,
            },
        }
    }
}

/// A property with a plain kind of value.
pub open spec fn property(name: Seq<char>, kind: KindView, description: Seq<char>) -> PropertyView {
    PropertyView { name, kind, description }
}

/// Makes a property.
pub fn new_property(name: &str, kind: ValueKind, description: &str) -> (result: ToolProperty)
    ensures
        result@ == property(name@, kind@, description@),
{
    ToolProperty { name: name.to_owned(), kind, description: description.to_owned() }
}

/// Makes a schema.
pub fn new_schema(
    properties: Vec<ToolProperty>,
    required: Vec<String>,
    additional_properties: Option<bool>,
) -> (result: ObjectSchema)
    ensures
        result@ == (SchemaView {
            properties: properties@.map_values(|p: ToolProperty| p@),
            required: texts(required@),
            additional_properties,
        }),
{
    ObjectSchema { properties, required, additional_properties }
}

/// A list of one text.
pub fn one_text(text: &str) -> (result: Vec<String>)
    ensures
        texts(result@) == seq![text@],
{
    let mut list: Vec<String> = Vec::new();
    list.push(text.to_owned());
    proof {
        assert(texts(list@) =~= seq![text@]);
    }
    list
}

/// A list with one text more.
pub fn and_text(list: Vec<String>, text: &str) -> (result: Vec<String>)
    ensures
        texts(result@) == texts(list@).push(text@),
{
    let mut longer = list;
    longer.push(text.to_owned());
    proof {
        assert(texts(longer@) =~= texts(list@).push(text@));
    }
    longer
}

/// What a tool is called with.
#[derive(Debug, PartialEq, Eq)]
pub enum ToolPayload {
    /// The arguments of a function.
    Function { arguments: String },
    Other,
}

impl ToolPayload {
    /// Whether this is a function call.
    pub fn is_function(&self) -> (result: bool)
        ensures
            result == (self is Function),
    {
        match self {
            ToolPayload::Function { .. } => true,
            ToolPayload::Other => false,
        }
    }
}

/// The arguments that a tool is called with; anything but a function call is refused.
pub fn function_arguments(tool_name: &str, payload: ToolPayload) -> (result: Result<
    String,
    FunctionCallError,
>)
    ensures
        match payload {
            ToolPayload::Function { arguments } => result == Ok::<String, FunctionCallError>(
                arguments,
            ),
            ToolPayload::Other => result is Err && result->Err_0.spec_message() == tool_name@
                + " handler received unsupported payload"@,
        },
{
    match payload {
        ToolPayload::Function { arguments } => Ok(arguments),
        ToolPayload::Other => {
            let mut message = tool_name.to_owned();
            message.append(" handler received unsupported payload");
            Err(FunctionCallError::RespondToModel(message))
        },
    }
}

} // verus!
