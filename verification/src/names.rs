//! How generated code names a type: the keyword of a primitive, and the identifier of a
//! definition as it is written from a given namespace.

use crate::grammar::{Entity, EntityView, Primitive};
use vstd::prelude::*;
use vstd::string::*;

verus! {

impl Primitive {
    /// The C# keyword of the primitive. The integers of variable width are held in the C# type
    /// of their range; `AnyClass` is the base class of the mapped classes.
    pub open spec fn spec_cs_keyword(self) -> Seq<char> {
        match self {
            Primitive::Bool => "bool"@,
            Primitive::Int8 => "sbyte"@,
            Primitive::UInt8 => "byte"@,
            Primitive::Int16 => "short"@,
            Primitive::UInt16 => "ushort"@,
            Primitive::Int32 => "int"@,
            Primitive::UInt32 => "uint"@,
            Primitive::VarInt32 => "int"@,
            Primitive::VarUInt32 => "uint"@,
            Primitive::Int64 => "long"@,
            Primitive::UInt64 => "ulong"@,
            Primitive::VarInt62 => "long"@,
            Primitive::VarUInt62 => "ulong"@,
            Primitive::Float32 => "float"@,
            Primitive::Float64 => "double"@,
            Primitive::String => "string"@,
            Primitive::AnyClass => "IceRpc.Slice.AnyClass"@,
        }
    }

    pub fn cs_keyword(&self) -> (keyword: &'static str)
        ensures
            keyword@ == self.spec_cs_keyword(),
    {
        match self {
            Primitive::Bool => "bool",
            Primitive::Int8 => "sbyte",
            Primitive::UInt8 => "byte",
            Primitive::Int16 => "short",
            Primitive::UInt16 => "ushort",
            Primitive::Int32 => "int",
            Primitive::UInt32 => "uint",
            Primitive::VarInt32 => "int",
            Primitive::VarUInt32 => "uint",
            Primitive::Int64 => "long",
            Primitive::UInt64 => "ulong",
            Primitive::VarInt62 => "long",
            Primitive::VarUInt62 => "ulong",
            Primitive::Float32 => "float",
            Primitive::Float64 => "double",
            Primitive::String => "string",
            Primitive::AnyClass => "IceRpc.Slice.AnyClass",
        }
    }
}

impl EntityView {
    /// The identifier of the entity as code in `namespace` writes it: bare inside the entity's
    /// own namespace, and from anywhere else qualified from the global namespace down.
    pub open spec fn scoped_identifier(self, namespace: Seq<char>) -> Seq<char> {
        if self.namespace == namespace {
            self.identifier
        } else {
            "global::"@ + self.namespace + "."@ + self.identifier
        }
    }
}

impl Entity {
    /// The identifier of the entity as code in `namespace` writes it.
    pub fn scoped_identifier(&self, namespace: &str) -> (scoped: String)
        ensures
            scoped@ == self@.scoped_identifier(namespace@),
    {
        let current = namespace.to_owned();
        if self.namespace == current {
            self.identifier.clone()
        } else {
            let mut scoped = "global::".to_owned();
            scoped.append(self.namespace.as_str());
            scoped.append(".");
            scoped.append(self.identifier.as_str());
            scoped
        }
    }
}

} // verus!
