//! The resolved types that a mapping reads: primitives, named definitions, sequences and
//! dictionaries, and the references to them.
//!
//! Every type here owns what it refers to, so a reference is a finite tree. Each has a view
//! in which strings are sequences of characters; the contracts are stated over the views.

use vstd::prelude::*;

verus! {

/// The built-in types of Slice.
#[derive(Clone, Copy, Debug, PartialEq, Eq, Structural)]
pub enum Primitive {
    Bool,
    Int8,
    UInt8,
    Int16,
    UInt16,
    Int32,
    UInt32,
    VarInt32,
    VarUInt32,
    Int64,
    UInt64,
    VarInt62,
    VarUInt62,
    Float32,
    Float64,
    String,
    AnyClass,
}

impl Primitive {
    /// Whether the primitive is a number or a boolean whose encoding always takes the same
    /// number of bytes. The integers of variable width, strings and `AnyClass` are not.
    pub open spec fn spec_is_fixed_size_numeric(self) -> bool {
        match self {
            Primitive::Bool
            | Primitive::Int8
            | Primitive::UInt8
            | Primitive::Int16
            | Primitive::UInt16
            | Primitive::Int32
            | Primitive::UInt32
            | Primitive::Int64
            | Primitive::UInt64
            | Primitive::Float32
            | Primitive::Float64 => true,
            _ => false,
        }
    }

    /// Whether the primitive is a number or a boolean of a fixed size.
    pub fn is_fixed_size_numeric(&self) -> (b: bool)
        ensures
            b == self.spec_is_fixed_size_numeric(),
    {
        match self {
            Primitive::VarInt32
            | Primitive::VarUInt32
            | Primitive::VarInt62
            | Primitive::VarUInt62
            | Primitive::String
            | Primitive::AnyClass => false,
            _ => true,
        }
    }
}

/// The name of a struct, a class, an enum or an interface in generated code.
#[derive(Clone, Debug, PartialEq, Eq)]
pub struct Entity {
    /// The identifier, as generated code writes it inside the entity's own namespace.
    /// For an interface this is the identifier of its proxy.
    pub identifier: String,
    /// The namespace that holds the entity.
    pub namespace: String,
}

/// An entity, with its strings as characters.
pub ghost struct EntityView {
    pub identifier: Seq<char>,
    pub namespace: Seq<char>,
}

impl View for Entity {
    type V = EntityView;

    open spec fn view(&self) -> EntityView {
        EntityView { identifier: self.identifier@, namespace: self.namespace@ }
    }
}

/// An attribute attached to a type reference.
#[derive(Clone, Debug, PartialEq, Eq)]
pub struct Attribute {
    /// The name of the attribute, with its prefix.
    pub directive: String,
    /// The arguments in the order in which they were written.
    pub arguments: Vec<String>,
}

/// An attribute, with its strings as characters.
pub ghost struct AttributeView {
    pub directive: Seq<char>,
    pub arguments: Seq<Seq<char>>,
}

/// The strings of a list, each as its characters.
pub open spec fn strings_view(strings: Seq<String>) -> Seq<Seq<char>> {
    Seq::new(strings.len(), |i: int| strings[i]@)
}

/// The attributes of a list, each as its view.
pub open spec fn attributes_view(attributes: Seq<Attribute>) -> Seq<AttributeView> {
    Seq::new(attributes.len(), |i: int| attributes[i]@)
}

impl View for Attribute {
    type V = AttributeView;

    open spec fn view(&self) -> AttributeView {
        AttributeView { directive: self.directive@, arguments: strings_view(self.arguments@) }
    }
}

/// The arguments of the first attribute in the list that has the directive.
pub open spec fn find_attribute(attributes: Seq<AttributeView>, directive: Seq<char>) -> Option<
    Seq<Seq<char>>,
>
    decreases attributes.len(),
{
    if attributes.len() == 0 {
        None
    } else if attributes[0].directive == directive {
        Some(attributes[0].arguments)
    } else {
        find_attribute(attributes.drop_first(), directive)
    }
}

/// What a type reference refers to.
#[derive(Debug, PartialEq, Eq)]
pub enum Types {
    Struct(Entity),
    Class(Entity),
    /// An interface, named by its proxy.
    Interface(Entity),
    /// An enum, with the primitive that its enumerators are encoded as, if one is declared.
    Enum { entity: Entity, underlying: Option<Primitive> },
    Sequence { element_type: Box<TypeRef> },
    Dictionary { key_type: Box<TypeRef>, value_type: Box<TypeRef> },
    Primitive(Primitive),
}

/// One use of a type: in a field, a parameter, or inside a sequence or a dictionary.
#[derive(Debug, PartialEq, Eq)]
pub struct TypeRef {
    /// The type that is used.
    pub definition: Types,
    /// Whether a value may be missing.
    pub is_optional: bool,
    /// The attributes attached to this use of the type, in the order in which they were
    /// written.
    pub attributes: Vec<Attribute>,
}

/// What a type reference refers to, with its strings as characters.
pub ghost enum TypesView {
    Struct(EntityView),
    Class(EntityView),
    Interface(EntityView),
    Enum { entity: EntityView, underlying: Option<Primitive> },
    Sequence { element_type: Box<TypeRefView> },
    Dictionary { key_type: Box<TypeRefView>, value_type: Box<TypeRefView> },
    Primitive(Primitive),
}

/// A type reference, with its strings as characters.
pub ghost struct TypeRefView {
    pub definition: TypesView,
    pub is_optional: bool,
    pub attributes: Seq<AttributeView>,
}

impl Types {
    /// The view of the definition.
    pub open spec fn model(&self) -> TypesView
        decreases self,
    {
        match self {
            Types::Struct(entity) => TypesView::Struct(entity@),
            Types::Class(entity) => TypesView::Class(entity@),
            Types::Interface(entity) => TypesView::Interface(entity@),
            Types::Enum { entity, underlying } => TypesView::Enum {
                entity: entity@,
                underlying: *underlying,
            },
            Types::Sequence { element_type } => TypesView::Sequence {
                element_type: Box::new(element_type.model()),
            },
            Types::Dictionary { key_type, value_type } => TypesView::Dictionary {
                key_type: Box::new(key_type.model()),
                value_type: Box::new(value_type.model()),
            },
            Types::Primitive(primitive) => TypesView::Primitive(*primitive),
        }
    }
}

impl TypeRef {
    /// The view of the reference.
    pub open spec fn model(&self) -> TypeRefView
        decreases self,
    {
        TypeRefView {
            definition: self.definition.model(),
            is_optional: self.is_optional,
            attributes: attributes_view(self.attributes@),
        }
    }
}

impl View for Types {
    type V = TypesView;

    open spec fn view(&self) -> TypesView {
        self.model()
    }
}

impl View for TypeRef {
    type V = TypeRefView;

    open spec fn view(&self) -> TypeRefView {
        self.model()
    }
}

impl TypeRefView {
    /// The arguments of the first attribute of the reference that has the directive.
    pub open spec fn get_attribute(self, directive: Seq<char>) -> Option<Seq<Seq<char>>> {
        find_attribute(self.attributes, directive)
    }

    /// Whether the reference has an attribute with the directive.
    pub open spec fn has_attribute(self, directive: Seq<char>) -> bool {
        self.get_attribute(directive) is Some
    }

    /// Whether the reference, as the element type of a sequence, stands for numbers of a fixed
    /// size: it is not optional, and it refers to a primitive of a fixed size, or to an enum
    /// with such a primitive beneath it.
    pub open spec fn is_fixed_size_numeric(self) -> bool {
        !self.is_optional && match self.definition {
            TypesView::Primitive(primitive) => primitive.spec_is_fixed_size_numeric(),
            TypesView::Enum { entity, underlying: Some(primitive) } =>
                primitive.spec_is_fixed_size_numeric(),
            _ => false,
        }
    }

    /// Whether the reference is to a sequence whose elements are numbers of a fixed size.
    pub open spec fn has_fixed_size_numeric_elements(self) -> bool {
        self.definition matches TypesView::Sequence { element_type }
            && element_type.is_fixed_size_numeric()
    }
}

/// Where the search finds arguments, they are those of an attribute that has the directive and
/// that no attribute with the directive stands before. Where it finds none, no attribute has
/// the directive.
pub proof fn lemma_find_attribute_is_first(attributes: Seq<AttributeView>, directive: Seq<char>)
    ensures
        match find_attribute(attributes, directive) {
            Some(arguments) => exists|i: int|
                {
                    &&& 0 <= i < attributes.len()
                    &&& (#[trigger] attributes[i]).directive == directive
                    &&& attributes[i].arguments == arguments
                    &&& forall|j: int| 0 <= j < i ==> (#[trigger] attributes[j]).directive != directive
                },
            None => forall|i: int|
                0 <= i < attributes.len() ==> (#[trigger] attributes[i]).directive != directive,
        },
    decreases attributes.len(),
{
    if attributes.len() > 0 && attributes[0].directive != directive {
        let rest = attributes.drop_first();
        lemma_find_attribute_is_first(rest, directive);
        assert(forall|i: int| 0 <= i < rest.len() ==> rest[i] == attributes[i + 1]);
        match find_attribute(rest, directive) {
            Some(arguments) => {
                let i = choose|i: int|
                    {
                        &&& 0 <= i < rest.len()
                        &&& (#[trigger] rest[i]).directive == directive
                        &&& rest[i].arguments == arguments
                        &&& forall|j: int| 0 <= j < i ==> (#[trigger] rest[j]).directive != directive
                    };
                assert(attributes[i + 1] == rest[i]);
                assert forall|j: int| 0 <= j < i + 1 implies (#[trigger] attributes[j]).directive
                    != directive by {
                    if j > 0 {
                        assert(attributes[j] == rest[j - 1]);
                    }
                }
            },
            None => {
                assert forall|i: int| 0 <= i < attributes.len() implies (
                #[trigger] attributes[i]).directive != directive by {
                    if i > 0 {
                        assert(attributes[i] == rest[i - 1]);
                    }
                }
            },
        }
    } else if attributes.len() > 0 {
        assert(attributes[0].directive == directive);
    }
}

/// While the attributes before `from` lack the directive, the search can start at `from`.
proof fn lemma_find_attribute_skip(attributes: Seq<AttributeView>, directive: Seq<char>, from: int)
    requires
        0 <= from <= attributes.len(),
        forall|j: int| 0 <= j < from ==> attributes[j].directive != directive,
    ensures
        find_attribute(attributes, directive) == find_attribute(attributes.skip(from), directive),
    decreases from,
{
    if from == 0 {
        assert(attributes.skip(0) =~= attributes);
    } else {
        lemma_find_attribute_skip(attributes, directive, from - 1);
        let rest = attributes.skip(from - 1);
        assert(rest[0] == attributes[from - 1]);
        assert(rest.drop_first() =~= attributes.skip(from));
    }
}

impl TypeRef {
    /// The arguments of the first attribute of the reference that has the directive.
    pub fn get_attribute(&self, directive: &str) -> (arguments: Option<&Vec<String>>)
        ensures
            match arguments {
                Some(found) => self@.get_attribute(directive@) == Some(strings_view(found@)),
                None => self@.get_attribute(directive@) is None,
            },
    {
        let wanted = directive.to_owned();
        let mut i: usize = 0;
        while i < self.attributes.len()
            invariant
                i <= self.attributes.len(),
                wanted@ == directive@,
                forall|j: int| 0 <= j < i ==> (#[trigger] self@.attributes[j]).directive != directive@,
            decreases self.attributes.len() - i,
        {
            if self.attributes[i].directive == wanted {
                proof {
                    lemma_find_attribute_skip(self@.attributes, directive@, i as int);
                    assert(self@.attributes.skip(i as int)[0] == self.attributes[i as int]@);
                }
                return Some(&self.attributes[i].arguments);
            }
            i += 1;
        }
        proof {
            lemma_find_attribute_skip(self@.attributes, directive@, i as int);
            assert(self@.attributes.skip(i as int).len() == 0);
        }
        None
    }

    /// Whether the reference has an attribute with the directive.
    pub fn has_attribute(&self, directive: &str) -> (b: bool)
        ensures
            b == self@.has_attribute(directive@),
    {
        self.get_attribute(directive).is_some()
    }

    /// Whether the reference, as the element type of a sequence, stands for numbers of a fixed
    /// size.
    pub fn is_fixed_size_numeric(&self) -> (b: bool)
        ensures
            b == self@.is_fixed_size_numeric(),
    {
        if self.is_optional {
            false
        } else {
            match &self.definition {
                Types::Primitive(primitive) => primitive.is_fixed_size_numeric(),
                Types::Enum { entity: _, underlying: Some(primitive) } =>
                    primitive.is_fixed_size_numeric(),
                _ => false,
            }
        }
    }

    /// Whether the reference is to a sequence whose elements are numbers of a fixed size.
    pub fn has_fixed_size_numeric_elements(&self) -> (b: bool)
        ensures
            b == self@.has_fixed_size_numeric_elements(),
    {
        match &self.definition {
            Types::Sequence { element_type } => element_type.is_fixed_size_numeric(),
            _ => false,
        }
    }
}

} // verus!
