//! The C# type that generated code declares for a type reference.

use crate::grammar::{Primitive, TypeRef, TypeRefView, Types, TypesView};
use vstd::prelude::*;
use vstd::string::*;

verus! {

/// The position in generated code for which a type is being written.
#[derive(Clone, Copy, Debug, PartialEq, Eq, Structural)]
pub enum TypeContext {
    /// The type of a field.
    DataMember,
    /// The element type of a sequence, or the key or value type of a dictionary.
    Nested,
    /// The type of a parameter that an operation receives.
    Incoming,
    /// The type of a value that an operation returns.
    Outgoing,
}

/// The directive of the attribute that names the generic collection to receive a sequence or a
/// dictionary in.
pub open spec fn generic_directive() -> Seq<char> {
    "cs:generic"@
}

/// Whether `name` is one of the collections of `System.Collections.Generic` that a sequence can
/// be received in.
pub open spec fn is_standard_sequence(name: Seq<char>) -> bool {
    name == "List"@ || name == "LinkedList"@ || name == "Queue"@ || name == "Stack"@
}

/// Whether `name` is the one collection of `System.Collections.Generic` that a dictionary can be
/// received in besides the default.
pub open spec fn is_standard_dictionary(name: Seq<char>) -> bool {
    name == "SortedDictionary"@
}

/// The collection that a generic attribute of a sequence names: one of the standard
/// collections, qualified, or any other name as it was given.
pub open spec fn generic_sequence_name(name: Seq<char>) -> Seq<char> {
    if is_standard_sequence(name) {
        "global::System.Collections.Generic."@ + name
    } else {
        name
    }
}

/// The collection that a generic attribute of a dictionary names: the standard sorted
/// dictionary, qualified, or any other name as it was given.
pub open spec fn generic_dictionary_name(name: Seq<char>) -> Seq<char> {
    if is_standard_dictionary(name) {
        "global::System.Collections.Generic."@ + name
    } else {
        name
    }
}

/// The C# type of a sequence whose elements have the C# type `element`.
///
/// `generic` holds the arguments of the generic attribute of the reference, if it has one, and
/// `fixed_size_numeric` says whether the elements are numbers of a fixed size.
pub open spec fn sequence_type_string(
    element: Seq<char>,
    fixed_size_numeric: bool,
    generic: Option<Seq<Seq<char>>>,
    context: TypeContext,
) -> Seq<char> {
    match context {
        TypeContext::DataMember | TypeContext::Nested =>
            "global::System.Collections.Generic.IList<"@ + element + ">"@,
        TypeContext::Incoming => match generic {
            Some(arguments) => generic_sequence_name(arguments[0]) + "<"@ + element + ">"@,
            None => element + "[]"@,
        },
        TypeContext::Outgoing => if fixed_size_numeric && generic is None {
            "global::System.ReadOnlyMemory<"@ + element + ">"@
        } else {
            "global::System.Collections.Generic.IEnumerable<"@ + element + ">"@
        },
    }
}

/// The C# type of a dictionary whose keys and values have the C# types `key` and `value`.
///
/// `generic` holds the arguments of the generic attribute of the reference, if it has one.
pub open spec fn dictionary_type_string(
    key: Seq<char>,
    value: Seq<char>,
    generic: Option<Seq<Seq<char>>>,
    context: TypeContext,
) -> Seq<char> {
    match context {
        TypeContext::DataMember | TypeContext::Nested =>
            "global::System.Collections.Generic.IDictionary<"@ + key + ", "@ + value + ">"@,
        TypeContext::Incoming => match generic {
            Some(arguments) => generic_dictionary_name(arguments[0]) + "<"@ + key + ", "@ + value
                + ">"@,
            None => "global::System.Collections.Generic.Dictionary<"@ + key + ", "@ + value
                + ">"@,
        },
        TypeContext::Outgoing =>
            "global::System.Collections.Generic.IEnumerable<global::System.Collections.Generic.KeyValuePair<"@
                + key + ", "@ + value + ">>"@,
    }
}

impl TypeRefView {
    /// The arguments of the generic attribute of the reference, if it has one.
    pub open spec fn generic(self) -> Option<Seq<Seq<char>>> {
        self.get_attribute(generic_directive())
    }

    /// Whether instances of the type are copied when they are assigned.
    pub open spec fn is_value_type(self) -> bool {
        match self.definition {
            TypesView::Primitive(primitive) => primitive != Primitive::String && primitive
                != Primitive::AnyClass,
            TypesView::Enum { .. } | TypesView::Struct(_) | TypesView::Interface(_) => true,
            TypesView::Class(_) | TypesView::Sequence { .. } | TypesView::Dictionary { .. } => false,
        }
    }

    /// Whether the reference can be mapped in `context`. The one thing that is read and may be
    /// missing is the name of the collection in a generic attribute of a sequence or a
    /// dictionary, which only a parameter that is received reads.
    pub open spec fn is_mappable(self, context: TypeContext) -> bool {
        context == TypeContext::Incoming && (self.definition is Sequence
            || self.definition is Dictionary) ==> (self.generic() matches Some(arguments)
            ==> arguments.len() > 0)
    }

    /// Whether the reference is mapped to a view of memory, which is written the same whether
    /// or not the reference is optional: a sequence of numbers of a fixed size that is
    /// returned, with no generic attribute.
    pub open spec fn is_memory_view(self, context: TypeContext) -> bool {
        context == TypeContext::Outgoing && self.has_fixed_size_numeric_elements()
            && self.generic() is None
    }

    /// The C# type of the reference without regard to whether it is optional.
    pub open spec fn base_type_string(self, namespace: Seq<char>, context: TypeContext) -> Seq<
        char,
    >
        decreases self, 0nat,
    {
        match self.definition {
            TypesView::Struct(entity) => entity.scoped_identifier(namespace),
            TypesView::Class(entity) => entity.scoped_identifier(namespace),
            TypesView::Enum { entity, underlying } => entity.scoped_identifier(namespace),
            TypesView::Interface(proxy) => proxy.scoped_identifier(namespace),
            TypesView::Sequence { element_type } => sequence_type_string(
                element_type.type_string(namespace, TypeContext::Nested, false),
                element_type.is_fixed_size_numeric(),
                self.generic(),
                context,
            ),
            TypesView::Dictionary { key_type, value_type } => dictionary_type_string(
                key_type.type_string(namespace, TypeContext::Nested, false),
                value_type.type_string(namespace, TypeContext::Nested, false),
                self.generic(),
                context,
            ),
            TypesView::Primitive(primitive) => primitive.spec_cs_keyword(),
        }
    }

    /// The C# type of the reference: its base type, followed by `?` where the reference is
    /// optional, unless the caller asks to leave this out or the base type is a view of memory.
    pub open spec fn type_string(
        self,
        namespace: Seq<char>,
        context: TypeContext,
        ignore_optional: bool,
    ) -> Seq<char>
        decreases self, 1nat,
    {
        if self.is_optional && !ignore_optional && !self.is_memory_view(context) {
            self.base_type_string(namespace, context) + "?"@
        } else {
            self.base_type_string(namespace, context)
        }
    }
}

impl TypeRef {
    /// Whether the reference can be mapped in `context`: the test that a caller makes before
    /// it asks for the type.
    pub fn can_be_mapped(&self, context: TypeContext) -> (b: bool)
        ensures
            b == self@.is_mappable(context),
    {
        match context {
            TypeContext::Incoming => match &self.definition {
                Types::Sequence { .. } | Types::Dictionary { .. } => match self.get_attribute(
                    "cs:generic",
                ) {
                    Some(arguments) => arguments.len() > 0,
                    None => true,
                },
                _ => true,
            },
            _ => true,
        }
    }
}

/// What the mapping offers on a type reference.
pub trait TypeRefExt {
    /// Whether instances of the type are copied when they are assigned.
    spec fn spec_is_value_type(&self) -> bool;

    /// Whether the reference can be mapped in `context`.
    spec fn is_mappable(&self, context: TypeContext) -> bool;

    /// The C# type of the reference.
    spec fn type_string(
        &self,
        namespace: Seq<char>,
        context: TypeContext,
        ignore_optional: bool,
    ) -> Seq<char>;

    /// Whether the type is a value type in C#.
    fn is_value_type(&self) -> (b: bool)
        ensures
            b == self.spec_is_value_type(),
    ;

    /// The C# type that code in `namespace` declares for the reference in `context`. With
    /// `ignore_optional` the type is written as if the reference were not optional.
    fn to_type_string(&self, namespace: &str, context: TypeContext, ignore_optional: bool) -> (s:
        String)
        requires
            self.is_mappable(context),
        ensures
            s@ == self.type_string(namespace@, context, ignore_optional),
    ;
}

impl TypeRefExt for TypeRef {
    open spec fn spec_is_value_type(&self) -> bool {
        self@.is_value_type()
    }

    open spec fn is_mappable(&self, context: TypeContext) -> bool {
        self@.is_mappable(context)
    }

    open spec fn type_string(
        &self,
        namespace: Seq<char>,
        context: TypeContext,
        ignore_optional: bool,
    ) -> Seq<char> {
        self@.type_string(namespace, context, ignore_optional)
    }

    fn is_value_type(&self) -> (b: bool)
        ensures
            b == self@.is_value_type(),
    {
        match &self.definition {
            Types::Primitive(primitive) => !matches!(
                primitive,
                Primitive::String | Primitive::AnyClass
            ),
            Types::Enum { .. } | Types::Struct(_) | Types::Interface(_) => true,
            Types::Class(_) | Types::Sequence { .. } | Types::Dictionary { .. } => false,
        }
    }

    fn to_type_string(&self, namespace: &str, context: TypeContext, ignore_optional: bool) -> (s:
        String)
        ensures
            s@ == self@.type_string(namespace@, context, ignore_optional),
        decreases self, 1nat,
    {
        let type_str = match &self.definition {
            Types::Struct(entity) => entity.scoped_identifier(namespace),
            Types::Class(entity) => entity.scoped_identifier(namespace),
            Types::Enum { entity, underlying: _ } => entity.scoped_identifier(namespace),
            Types::Interface(proxy) => proxy.scoped_identifier(namespace),
            Types::Sequence { .. } => sequence_type_to_string(self, namespace, context),
            Types::Dictionary { .. } => dictionary_type_to_string(self, namespace, context),
            Types::Primitive(primitive) => primitive.cs_keyword().to_owned(),
        };

        // A view of memory is written the same for optional and non-optional references.
        let is_memory_view = context == TypeContext::Outgoing
            && self.has_fixed_size_numeric_elements() && !self.has_attribute("cs:generic");

        if self.is_optional && !ignore_optional && !is_memory_view {
            type_str.concat("?")
        } else {
            type_str
        }
    }
}

/// The collection that a generic attribute of a sequence names.
pub fn qualify_sequence_name(name: &str) -> (qualified: String)
    ensures
        qualified@ == generic_sequence_name(name@),
{
    let name = name.to_owned();
    if name == "List".to_owned() || name == "LinkedList".to_owned() || name == "Queue".to_owned()
        || name == "Stack".to_owned() {
        "global::System.Collections.Generic.".to_owned().concat(name.as_str())
    } else {
        name
    }
}

/// The collection that a generic attribute of a dictionary names.
pub fn qualify_dictionary_name(name: &str) -> (qualified: String)
    ensures
        qualified@ == generic_dictionary_name(name@),
{
    let name = name.to_owned();
    if name == "SortedDictionary".to_owned() {
        "global::System.Collections.Generic.".to_owned().concat(name.as_str())
    } else {
        name
    }
}

/// The C# type of a reference to a sequence, without regard to whether it is optional.
fn sequence_type_to_string(sequence_ref: &TypeRef, namespace: &str, context: TypeContext) -> (s:
    String)
    requires
        sequence_ref@.definition is Sequence,
        sequence_ref@.is_mappable(context),
    ensures
        s@ == sequence_ref@.base_type_string(namespace@, context),
    decreases sequence_ref, 0nat,
{
    match &sequence_ref.definition {
        Types::Sequence { element_type } => {
            let element_type_str = element_type.to_type_string(
                namespace,
                TypeContext::Nested,
                false,
            );
            match context {
                TypeContext::DataMember | TypeContext::Nested => {
                    let mut s = "global::System.Collections.Generic.IList<".to_owned();
                    s.append(element_type_str.as_str());
                    s.append(">");
                    s
                },
                TypeContext::Incoming => match sequence_ref.get_attribute("cs:generic") {
                    Some(arguments) => {
                        let mut s = qualify_sequence_name(arguments[0].as_str());
                        s.append("<");
                        s.append(element_type_str.as_str());
                        s.append(">");
                        s
                    },
                    None => element_type_str.concat("[]"),
                },
                TypeContext::Outgoing => {
                    // Numbers of a fixed size are handed out as the memory that holds them.
                    let mut s = if element_type.is_fixed_size_numeric()
                        && !sequence_ref.has_attribute("cs:generic") {
                        "global::System.ReadOnlyMemory<".to_owned()
                    } else {
                        "global::System.Collections.Generic.IEnumerable<".to_owned()
                    };
                    s.append(element_type_str.as_str());
                    s.append(">");
                    s
                },
            }
        },
        _ => unreached(),
    }
}

/// The C# type of a reference to a dictionary, without regard to whether it is optional.
fn dictionary_type_to_string(dictionary_ref: &TypeRef, namespace: &str, context: TypeContext) -> (s:
    String)
    requires
        dictionary_ref@.definition is Dictionary,
        dictionary_ref@.is_mappable(context),
    ensures
        s@ == dictionary_ref@.base_type_string(namespace@, context),
    decreases dictionary_ref, 0nat,
{
    match &dictionary_ref.definition {
        Types::Dictionary { key_type, value_type } => {
            let key_type_str = key_type.to_type_string(namespace, TypeContext::Nested, false);
            let value_type_str = value_type.to_type_string(namespace, TypeContext::Nested, false);

            let mut s = match context {
                TypeContext::DataMember | TypeContext::Nested => {
                    "global::System.Collections.Generic.IDictionary<".to_owned()
                },
                TypeContext::Incoming => match dictionary_ref.get_attribute("cs:generic") {
                    Some(arguments) => {
                        qualify_dictionary_name(arguments[0].as_str()).concat("<")
                    },
                    None => "global::System.Collections.Generic.Dictionary<".to_owned(),
                },
                TypeContext::Outgoing => {
                    "global::System.Collections.Generic.IEnumerable<global::System.Collections.Generic.KeyValuePair<".to_owned()
                },
            };
            s.append(key_type_str.as_str());
            s.append(", ");
            s.append(value_type_str.as_str());
            match context {
                TypeContext::Outgoing => s.append(">>"),
                _ => s.append(">"),
            }
            s
        },
        _ => unreached(),
    }
}

} // verus!
