//! What holds of the mapping of every type reference.

use crate::grammar::{AttributeView, EntityView, Primitive, TypeRef, TypeRefView, TypesView};
use crate::mapping::{dictionary_type_string, sequence_type_string, TypeContext};
use vstd::prelude::*;

verus! {

impl TypeRefView {
    /// The same reference, taken as not optional.
    pub open spec fn required(self) -> TypeRefView {
        TypeRefView { is_optional: false, ..self }
    }

    /// Whether the identifier of the definition, where it has one, does not end with `?`.
    /// No identifier of C# does.
    pub open spec fn is_plainly_named(self) -> bool {
        match self.definition {
            TypesView::Struct(entity) => !ends_with_marker(entity.identifier),
            TypesView::Class(entity) => !ends_with_marker(entity.identifier),
            TypesView::Interface(proxy) => !ends_with_marker(proxy.identifier),
            TypesView::Enum { entity, underlying } => !ends_with_marker(entity.identifier),
            _ => true,
        }
    }

    /// The type of the reference inside a collection, written out: its base type there, and
    /// behind it `?` where the reference is optional, whatever the reference refers to.
    pub open spec fn nested_type_string(self, namespace: Seq<char>) -> Seq<char> {
        let base = self.base_type_string(namespace, TypeContext::Nested);
        if self.is_optional {
            base.push('?')
        } else {
            base
        }
    }

    /// The same reference with other attributes.
    pub open spec fn with_attributes(self, attributes: Seq<AttributeView>) -> TypeRefView {
        TypeRefView { attributes, ..self }
    }
}

/// Whether the last character of `text` is `?`.
pub open spec fn ends_with_marker(text: Seq<char>) -> bool {
    text.len() > 0 && text.last() == '?'
}

/// Whether a type is a value type depends on its definition alone. The primitives are value
/// types, except strings and `AnyClass`; so are enums, structs and interfaces. Classes,
/// sequences and dictionaries are not.
pub proof fn lemma_value_types(type_ref: TypeRefView)
    ensures
        type_ref.definition matches TypesView::Primitive(primitive) ==> (type_ref.is_value_type()
            <==> primitive != Primitive::String && primitive != Primitive::AnyClass),
        type_ref.definition is Enum || type_ref.definition is Struct
            || type_ref.definition is Interface ==> type_ref.is_value_type(),
        type_ref.definition is Class || type_ref.definition is Sequence
            || type_ref.definition is Dictionary ==> !type_ref.is_value_type(),
{
}

/// The type of an optional reference is the type of the same reference taken as not optional,
/// followed by one `?`, unless the reference is mapped to a view of memory.
pub proof fn lemma_optional_type_ends_with_one_marker(
    type_ref: TypeRefView,
    namespace: Seq<char>,
    context: TypeContext,
)
    requires
        type_ref.is_optional,
        !type_ref.is_memory_view(context),
    ensures
        type_ref.type_string(namespace, context, false) == type_ref.required().type_string(
            namespace,
            context,
            false,
        ).push('?'),
        type_ref.type_string(namespace, context, false).last() == '?',
        type_ref.type_string(namespace, context, true) == type_ref.required().type_string(
            namespace,
            context,
            false,
        ),
{
    reveal_strlit("?");
    let base = type_ref.base_type_string(namespace, context);
    assert(type_ref.required().base_type_string(namespace, context) == base);
    assert("?"@ =~= seq!['?']);
    assert(base + "?"@ =~= base.push('?'));
}

/// The identifier of an entity ends as the entity's own identifier does, from whatever
/// namespace it is written.
proof fn lemma_scoped_identifier_end(entity: EntityView, namespace: Seq<char>)
    requires
        !ends_with_marker(entity.identifier),
    ensures
        !ends_with_marker(entity.scoped_identifier(namespace)),
{
    reveal_strlit(".");
    let qualifier = "global::"@ + entity.namespace + "."@;
    assert(qualifier.last() == '.');
    if entity.identifier.len() == 0 {
        assert(qualifier + entity.identifier =~= qualifier);
    }
}

/// Without regard to whether a reference is optional, its type does not end with `?`, as long
/// as the identifier of its definition does not.
pub proof fn lemma_base_type_has_no_marker(
    type_ref: TypeRefView,
    namespace: Seq<char>,
    context: TypeContext,
)
    requires
        type_ref.is_plainly_named(),
    ensures
        !ends_with_marker(type_ref.base_type_string(namespace, context)),
{
    match type_ref.definition {
        TypesView::Struct(entity) => lemma_scoped_identifier_end(entity, namespace),
        TypesView::Class(entity) => lemma_scoped_identifier_end(entity, namespace),
        TypesView::Interface(proxy) => lemma_scoped_identifier_end(proxy, namespace),
        TypesView::Enum { entity, underlying } => lemma_scoped_identifier_end(entity, namespace),
        TypesView::Sequence { element_type } => {
            reveal_strlit(">");
            reveal_strlit("[]");
        },
        TypesView::Dictionary { key_type, value_type } => {
            reveal_strlit(">");
            reveal_strlit(">>");
        },
        TypesView::Primitive(primitive) => {
            reveal_strlit("bool");
            reveal_strlit("sbyte");
            reveal_strlit("byte");
            reveal_strlit("short");
            reveal_strlit("ushort");
            reveal_strlit("int");
            reveal_strlit("uint");
            reveal_strlit("long");
            reveal_strlit("ulong");
            reveal_strlit("float");
            reveal_strlit("double");
            reveal_strlit("string");
            reveal_strlit("IceRpc.Slice.AnyClass");
        },
    }
}

/// The type of an optional reference ends with exactly one `?`, unless the reference is mapped
/// to a view of memory, as long as the identifier of its definition does not end with `?`.
pub proof fn lemma_optional_type_has_one_marker_at_end(
    type_ref: TypeRefView,
    namespace: Seq<char>,
    context: TypeContext,
)
    requires
        type_ref.is_optional,
        !type_ref.is_memory_view(context),
        type_ref.is_plainly_named(),
    ensures
        ends_with_marker(type_ref.type_string(namespace, context, false)),
        !ends_with_marker(type_ref.type_string(namespace, context, false).drop_last()),
{
    let base = type_ref.base_type_string(namespace, context);
    lemma_optional_type_ends_with_one_marker(type_ref, namespace, context);
    lemma_base_type_has_no_marker(type_ref, namespace, context);
    assert(type_ref.required().base_type_string(namespace, context) == base);
    assert(base.push('?').drop_last() =~= base);
}

/// A sequence of numbers of a fixed size that is returned, with no generic attribute, is a
/// view of memory whether or not the reference is optional: its type ends with `>` and has no
/// `?` behind it.
pub proof fn lemma_memory_view_has_no_marker(
    type_ref: TypeRefView,
    namespace: Seq<char>,
    ignore_optional: bool,
)
    requires
        type_ref.is_memory_view(TypeContext::Outgoing),
    ensures
        type_ref.type_string(namespace, TypeContext::Outgoing, ignore_optional)
            == "global::System.ReadOnlyMemory<"@ + (type_ref.definition->element_type).type_string(
            namespace,
            TypeContext::Nested,
            false,
        ) + ">"@,
        type_ref.type_string(namespace, TypeContext::Outgoing, ignore_optional).last() == '>',
        !ends_with_marker(type_ref.type_string(namespace, TypeContext::Outgoing, ignore_optional)),
        type_ref.type_string(namespace, TypeContext::Outgoing, ignore_optional)
            == type_ref.required().type_string(namespace, TypeContext::Outgoing, false),
{
    reveal_strlit(">");
    assert(type_ref.required().base_type_string(namespace, TypeContext::Outgoing)
        == type_ref.base_type_string(namespace, TypeContext::Outgoing));
}

/// A sequence that is received is an array of its elements, unless a generic attribute names
/// another collection.
pub proof fn lemma_received_sequence_is_array(type_ref: TypeRefView, namespace: Seq<char>)
    requires
        type_ref.definition is Sequence,
        type_ref.generic() is None,
    ensures
        type_ref.base_type_string(namespace, TypeContext::Incoming) == (
        type_ref.definition->element_type).type_string(namespace, TypeContext::Nested, false)
            + "[]"@,
{
}

/// A dictionary in a field is an `IDictionary` of the types that its keys and values have
/// inside a collection.
pub proof fn lemma_dictionary_field_is_interface(type_ref: TypeRefView, namespace: Seq<char>)
    requires
        type_ref.definition is Dictionary,
    ensures
        type_ref.base_type_string(namespace, TypeContext::DataMember)
            == "global::System.Collections.Generic.IDictionary<"@ + (
        type_ref.definition->key_type).type_string(namespace, TypeContext::Nested, false) + ", "@
            + (type_ref.definition->value_type).type_string(namespace, TypeContext::Nested, false)
            + ">"@,
{
}

/// A dictionary that is returned is a sequence of pairs, whatever attributes the reference has.
pub proof fn lemma_returned_dictionary_ignores_attributes(
    type_ref: TypeRefView,
    attributes: Seq<AttributeView>,
    namespace: Seq<char>,
    ignore_optional: bool,
)
    requires
        type_ref.definition is Dictionary,
    ensures
        type_ref.base_type_string(namespace, TypeContext::Outgoing)
            == "global::System.Collections.Generic.IEnumerable<global::System.Collections.Generic.KeyValuePair<"@
            + (type_ref.definition->key_type).type_string(namespace, TypeContext::Nested, false)
            + ", "@ + (type_ref.definition->value_type).type_string(
            namespace,
            TypeContext::Nested,
            false,
        ) + ">>"@,
        type_ref.with_attributes(attributes).type_string(
            namespace,
            TypeContext::Outgoing,
            ignore_optional,
        ) == type_ref.type_string(namespace, TypeContext::Outgoing, ignore_optional),
{
    assert(type_ref.with_attributes(attributes).base_type_string(namespace, TypeContext::Outgoing)
        == type_ref.base_type_string(namespace, TypeContext::Outgoing));
}

/// The type is a function of what the reference holds, of the namespace and of the context:
/// two references with the same view have the same type.
pub proof fn lemma_same_view_same_type(
    first: TypeRef,
    second: TypeRef,
    namespace: Seq<char>,
    context: TypeContext,
    ignore_optional: bool,
)
    requires
        first@ == second@,
    ensures
        first@.type_string(namespace, context, ignore_optional) == second@.type_string(
            namespace,
            context,
            ignore_optional,
        ),
        first@.is_value_type() == second@.is_value_type(),
{
}

/// No reference inside a collection is mapped to a view of memory: where it is optional, its
/// type there ends with `?`, also where it is a sequence of numbers of a fixed size.
pub proof fn lemma_nested_type_keeps_marker(nested: TypeRefView, namespace: Seq<char>)
    ensures
        !nested.is_memory_view(TypeContext::Nested),
        nested.type_string(namespace, TypeContext::Nested, false) == nested.nested_type_string(
            namespace,
        ),
        nested.is_optional ==> ends_with_marker(
            nested.type_string(namespace, TypeContext::Nested, false),
        ),
{
    reveal_strlit("?");
    let base = nested.base_type_string(namespace, TypeContext::Nested);
    assert("?"@ =~= seq!['?']);
    assert(base + "?"@ =~= base.push('?'));
}

/// The type of a collection is made of the types that its elements, keys and values have
/// inside a collection, each with its own `?` where it is optional, in whatever context the
/// collection itself stands and whether or not the caller asks to leave its own `?` out.
pub proof fn lemma_collection_holds_nested_types(
    type_ref: TypeRefView,
    namespace: Seq<char>,
    context: TypeContext,
)
    ensures
        type_ref.definition matches TypesView::Sequence { element_type }
            ==> type_ref.base_type_string(namespace, context) == sequence_type_string(
            element_type.nested_type_string(namespace),
            element_type.is_fixed_size_numeric(),
            type_ref.generic(),
            context,
        ),
        type_ref.definition matches TypesView::Dictionary { key_type, value_type }
            ==> type_ref.base_type_string(namespace, context) == dictionary_type_string(
            key_type.nested_type_string(namespace),
            value_type.nested_type_string(namespace),
            type_ref.generic(),
            context,
        ),
{
    match type_ref.definition {
        TypesView::Sequence { element_type } => {
            lemma_nested_type_keeps_marker(*element_type, namespace);
        },
        TypesView::Dictionary { key_type, value_type } => {
            lemma_nested_type_keeps_marker(*key_type, namespace);
            lemma_nested_type_keeps_marker(*value_type, namespace);
        },
        _ => {},
    }
}

} // verus!
