//! Type-tagged values.
//!
//! Beans and table entries hold values of different types side by side. Each
//! stored value is a [`Value`]: a tagged union whose tag is the runtime identity
//! of the type that was stored. Reading a value back at a type checks the tag
//! first, so a request for the wrong type is always answered with an error and
//! never with a reinterpreted value.

use vstd::prelude::*;

verus! {

/// The runtime identity of a storable type.
#[derive(Clone, Copy, Debug, PartialEq, Eq, Structural, Hash)]
pub enum TypeTag {
    Unit,
    Bool,
    I32,
    I64,
    U32,
    U64,
    Usize,
    I8,
    I16,
    U8,
    U16,
    Isize,
    I128,
    U128,
    Char,
    Text,
    Str,
}

/// The human-readable name of the type behind a tag.
pub open spec fn tag_name(tag: TypeTag) -> Seq<char> {
    match tag {
        TypeTag::Unit => "()"@,
        TypeTag::Bool => "bool"@,
        TypeTag::I32 => "i32"@,
        TypeTag::I64 => "i64"@,
        TypeTag::U32 => "u32"@,
        TypeTag::U64 => "u64"@,
        TypeTag::Usize => "usize"@,
        TypeTag::I8 => "i8"@,
        TypeTag::I16 => "i16"@,
        TypeTag::U8 => "u8"@,
        TypeTag::U16 => "u16"@,
        TypeTag::Isize => "isize"@,
        TypeTag::I128 => "i128"@,
        TypeTag::U128 => "u128"@,
        TypeTag::Char => "char"@,
        TypeTag::Text => "alloc::string::String"@,
        TypeTag::Str => "&str"@,
    }
}

impl TypeTag {
    /// The name of the type, for diagnostics.
    pub fn name(self) -> (n: &'static str)
        ensures
            n@ == tag_name(self),
    {
        match self {
            TypeTag::Unit => "()",
            TypeTag::Bool => "bool",
            TypeTag::I32 => "i32",
            TypeTag::I64 => "i64",
            TypeTag::U32 => "u32",
            TypeTag::U64 => "u64",
            TypeTag::Usize => "usize",
            TypeTag::I8 => "i8",
            TypeTag::I16 => "i16",
            TypeTag::U8 => "u8",
            TypeTag::U16 => "u16",
            TypeTag::Isize => "isize",
            TypeTag::I128 => "i128",
            TypeTag::U128 => "u128",
            TypeTag::Char => "char",
            TypeTag::Text => "alloc::string::String",
            TypeTag::Str => "&str",
        }
    }
}

/// A stored value together with the identity of its type.
#[derive(Debug)]
pub enum Value {
    Unit(()),
    Bool(bool),
    I32(i32),
    I64(i64),
    U32(u32),
    U64(u64),
    Usize(usize),
    I8(i8),
    I16(i16),
    U8(u8),
    U16(u16),
    Isize(isize),
    I128(i128),
    U128(u128),
    Char(char),
    Text(String),
    Str(&'static str),
}

impl Value {
    /// The tag of the type that this value was stored as.
    pub open spec fn tag_of(self) -> TypeTag {
        match self {
            Value::Unit(_) => TypeTag::Unit,
            Value::Bool(_) => TypeTag::Bool,
            Value::I32(_) => TypeTag::I32,
            Value::I64(_) => TypeTag::I64,
            Value::U32(_) => TypeTag::U32,
            Value::U64(_) => TypeTag::U64,
            Value::Usize(_) => TypeTag::Usize,
            Value::I8(_) => TypeTag::I8,
            Value::I16(_) => TypeTag::I16,
            Value::U8(_) => TypeTag::U8,
            Value::U16(_) => TypeTag::U16,
            Value::Isize(_) => TypeTag::Isize,
            Value::I128(_) => TypeTag::I128,
            Value::U128(_) => TypeTag::U128,
            Value::Char(_) => TypeTag::Char,
            Value::Text(_) => TypeTag::Text,
            Value::Str(_) => TypeTag::Str,
        }
    }

    /// The tag of the type that this value was stored as.
    pub fn tag(&self) -> (t: TypeTag)
        ensures
            t == self.tag_of(),
    {
        match self {
            Value::Unit(_) => TypeTag::Unit,
            Value::Bool(_) => TypeTag::Bool,
            Value::I32(_) => TypeTag::I32,
            Value::I64(_) => TypeTag::I64,
            Value::U32(_) => TypeTag::U32,
            Value::U64(_) => TypeTag::U64,
            Value::Usize(_) => TypeTag::Usize,
            Value::I8(_) => TypeTag::I8,
            Value::I16(_) => TypeTag::I16,
            Value::U8(_) => TypeTag::U8,
            Value::U16(_) => TypeTag::U16,
            Value::Isize(_) => TypeTag::Isize,
            Value::I128(_) => TypeTag::I128,
            Value::U128(_) => TypeTag::U128,
            Value::Char(_) => TypeTag::Char,
            Value::Text(_) => TypeTag::Text,
            Value::Str(_) => TypeTag::Str,
        }
    }

    /// The name of the type that this value was stored as.
    pub fn kind_name(&self) -> (n: &'static str)
        ensures
            n@ == tag_name(self.tag_of()),
    {
        self.tag().name()
    }

    /// A copy of this value, equal to it in every respect.
    pub fn duplicate(&self) -> (copy: Value)
        ensures
            copy == *self,
    {
        match self {
            Value::Unit(_) => Value::Unit(()),
            Value::Bool(b) => Value::Bool(*b),
            Value::I32(x) => Value::I32(*x),
            Value::I64(x) => Value::I64(*x),
            Value::U32(x) => Value::U32(*x),
            Value::U64(x) => Value::U64(*x),
            Value::Usize(x) => Value::Usize(*x),
            Value::I8(x) => Value::I8(*x),
            Value::I16(x) => Value::I16(*x),
            Value::U8(x) => Value::U8(*x),
            Value::U16(x) => Value::U16(*x),
            Value::Isize(x) => Value::Isize(*x),
            Value::I128(x) => Value::I128(*x),
            Value::U128(x) => Value::U128(*x),
            Value::Char(c) => Value::Char(*c),
            Value::Text(s) => Value::Text(s.clone()),
            Value::Str(s) => Value::Str(*s),
        }
    }
}

impl Clone for Value {
    fn clone(&self) -> (copy: Value)
        ensures
            copy == *self,
    {
        self.duplicate()
    }
}

/// A type whose values can be stored as a [`Value`] and read back.
///
/// `lift` is the embedding of the type into [`Value`]. It is injective, and
/// every lifted value carries the tag of the type, so reading at a type succeeds
/// exactly on the values that were stored at that type.
pub trait Typed: Sized {
    /// The tag that marks values of this type.
    spec fn tag_spec() -> TypeTag;

    /// The stored form of a value of this type.
    spec fn lift(self) -> Value;

    /// Every stored form carries the tag of its type.
    proof fn lift_is_tagged(x: Self)
        ensures
            x.lift().tag_of() == Self::tag_spec(),
    ;

    /// Two values with the same stored form are the same value.
    proof fn lift_is_injective(x: Self, y: Self)
        requires
            x.lift() == y.lift(),
        ensures
            x == y,
    ;

    /// The tag that marks values of this type.
    fn tag() -> (t: TypeTag)
        ensures
            t == Self::tag_spec(),
    ;

    /// Stores a value.
    fn into_value(self) -> (v: Value)
        ensures
            v == self.lift(),
    ;

    /// Takes a stored value back at this type; `None` if it was stored at
    /// another.
    fn take(v: Value) -> (r: Option<Self>)
        ensures
            r is Some <==> v.tag_of() == Self::tag_spec(),
            r matches Some(x) ==> x.lift() == v,
    ;

    /// Reads a stored value at this type; `None` if it was stored at another.
    fn peek(v: &Value) -> (r: Option<&Self>)
        ensures
            r is Some <==> v.tag_of() == Self::tag_spec(),
            r matches Some(x) ==> x.lift() == *v,
    ;

    /// Reads a stored value at this type for writing; `None`, and no change, if
    /// it was stored at another.
    fn peek_mut(v: &mut Value) -> (r: Option<&mut Self>)
        ensures
            r is Some <==> old(v).tag_of() == Self::tag_spec(),
            r matches Some(x) ==> x.lift() == *old(v) && *final(v) == (*final(x)).lift(),
            r is None ==> *final(v) == *old(v),
    ;
}

impl Typed for () {
    open spec fn tag_spec() -> TypeTag {
        TypeTag::Unit
    }

    open spec fn lift(self) -> Value {
        Value::Unit(self)
    }

    proof fn lift_is_tagged(x: Self) {
    }

    proof fn lift_is_injective(x: Self, y: Self) {
    }

    fn tag() -> (t: TypeTag) {
        TypeTag::Unit
    }

    fn into_value(self) -> (v: Value) {
        Value::Unit(self)
    }

    fn take(v: Value) -> (r: Option<Self>) {
        match v {
            Value::Unit(x) => Some(x),
            _ => None,
        }
    }

    fn peek(v: &Value) -> (r: Option<&Self>) {
        match v {
            Value::Unit(x) => Some(x),
            _ => None,
        }
    }

    fn peek_mut(v: &mut Value) -> (r: Option<&mut Self>) {
        match v {
            Value::Unit(x) => Some(x),
            _ => None,
        }
    }
}

impl Typed for bool {
    open spec fn tag_spec() -> TypeTag {
        TypeTag::Bool
    }

    open spec fn lift(self) -> Value {
        Value::Bool(self)
    }

    proof fn lift_is_tagged(x: Self) {
    }

    proof fn lift_is_injective(x: Self, y: Self) {
    }

    fn tag() -> (t: TypeTag) {
        TypeTag::Bool
    }

    fn into_value(self) -> (v: Value) {
        Value::Bool(self)
    }

    fn take(v: Value) -> (r: Option<Self>) {
        match v {
            Value::Bool(x) => Some(x),
            _ => None,
        }
    }

    fn peek(v: &Value) -> (r: Option<&Self>) {
        match v {
            Value::Bool(x) => Some(x),
            _ => None,
        }
    }

    fn peek_mut(v: &mut Value) -> (r: Option<&mut Self>) {
        match v {
            Value::Bool(x) => Some(x),
            _ => None,
        }
    }
}

impl Typed for i32 {
    open spec fn tag_spec() -> TypeTag {
        TypeTag::I32
    }

    open spec fn lift(self) -> Value {
        Value::I32(self)
    }

    proof fn lift_is_tagged(x: Self) {
    }

    proof fn lift_is_injective(x: Self, y: Self) {
    }

    fn tag() -> (t: TypeTag) {
        TypeTag::I32
    }

    fn into_value(self) -> (v: Value) {
        Value::I32(self)
    }

    fn take(v: Value) -> (r: Option<Self>) {
        match v {
            Value::I32(x) => Some(x),
            _ => None,
        }
    }

    fn peek(v: &Value) -> (r: Option<&Self>) {
        match v {
            Value::I32(x) => Some(x),
            _ => None,
        }
    }

    fn peek_mut(v: &mut Value) -> (r: Option<&mut Self>) {
        match v {
            Value::I32(x) => Some(x),
            _ => None,
        }
    }
}

impl Typed for i64 {
    open spec fn tag_spec() -> TypeTag {
        TypeTag::I64
    }

    open spec fn lift(self) -> Value {
        Value::I64(self)
    }

    proof fn lift_is_tagged(x: Self) {
    }

    proof fn lift_is_injective(x: Self, y: Self) {
    }

    fn tag() -> (t: TypeTag) {
        TypeTag::I64
    }

    fn into_value(self) -> (v: Value) {
        Value::I64(self)
    }

    fn take(v: Value) -> (r: Option<Self>) {
        match v {
            Value::I64(x) => Some(x),
            _ => None,
        }
    }

    fn peek(v: &Value) -> (r: Option<&Self>) {
        match v {
            Value::I64(x) => Some(x),
            _ => None,
        }
    }

    fn peek_mut(v: &mut Value) -> (r: Option<&mut Self>) {
        match v {
            Value::I64(x) => Some(x),
            _ => None,
        }
    }
}

impl Typed for u32 {
    open spec fn tag_spec() -> TypeTag {
        TypeTag::U32
    }

    open spec fn lift(self) -> Value {
        Value::U32(self)
    }

    proof fn lift_is_tagged(x: Self) {
    }

    proof fn lift_is_injective(x: Self, y: Self) {
    }

    fn tag() -> (t: TypeTag) {
        TypeTag::U32
    }

    fn into_value(self) -> (v: Value) {
        Value::U32(self)
    }

    fn take(v: Value) -> (r: Option<Self>) {
        match v {
            Value::U32(x) => Some(x),
            _ => None,
        }
    }

    fn peek(v: &Value) -> (r: Option<&Self>) {
        match v {
            Value::U32(x) => Some(x),
            _ => None,
        }
    }

    fn peek_mut(v: &mut Value) -> (r: Option<&mut Self>) {
        match v {
            Value::U32(x) => Some(x),
            _ => None,
        }
    }
}

impl Typed for u64 {
    open spec fn tag_spec() -> TypeTag {
        TypeTag::U64
    }

    open spec fn lift(self) -> Value {
        Value::U64(self)
    }

    proof fn lift_is_tagged(x: Self) {
    }

    proof fn lift_is_injective(x: Self, y: Self) {
    }

    fn tag() -> (t: TypeTag) {
        TypeTag::U64
    }

    fn into_value(self) -> (v: Value) {
        Value::U64(self)
    }

    fn take(v: Value) -> (r: Option<Self>) {
        match v {
            Value::U64(x) => Some(x),
            _ => None,
        }
    }

    fn peek(v: &Value) -> (r: Option<&Self>) {
        match v {
            Value::U64(x) => Some(x),
            _ => None,
        }
    }

    fn peek_mut(v: &mut Value) -> (r: Option<&mut Self>) {
        match v {
            Value::U64(x) => Some(x),
            _ => None,
        }
    }
}

impl Typed for usize {
    open spec fn tag_spec() -> TypeTag {
        TypeTag::Usize
    }

    open spec fn lift(self) -> Value {
        Value::Usize(self)
    }

    proof fn lift_is_tagged(x: Self) {
    }

    proof fn lift_is_injective(x: Self, y: Self) {
    }

    fn tag() -> (t: TypeTag) {
        TypeTag::Usize
    }

    fn into_value(self) -> (v: Value) {
        Value::Usize(self)
    }

    fn take(v: Value) -> (r: Option<Self>) {
        match v {
            Value::Usize(x) => Some(x),
            _ => None,
        }
    }

    fn peek(v: &Value) -> (r: Option<&Self>) {
        match v {
            Value::Usize(x) => Some(x),
            _ => None,
        }
    }

    fn peek_mut(v: &mut Value) -> (r: Option<&mut Self>) {
        match v {
            Value::Usize(x) => Some(x),
            _ => None,
        }
    }
}

impl Typed for char {
    open spec fn tag_spec() -> TypeTag {
        TypeTag::Char
    }

    open spec fn lift(self) -> Value {
        Value::Char(self)
    }

    proof fn lift_is_tagged(x: Self) {
    }

    proof fn lift_is_injective(x: Self, y: Self) {
    }

    fn tag() -> (t: TypeTag) {
        TypeTag::Char
    }

    fn into_value(self) -> (v: Value) {
        Value::Char(self)
    }

    fn take(v: Value) -> (r: Option<Self>) {
        match v {
            Value::Char(x) => Some(x),
            _ => None,
        }
    }

    fn peek(v: &Value) -> (r: Option<&Self>) {
        match v {
            Value::Char(x) => Some(x),
            _ => None,
        }
    }

    fn peek_mut(v: &mut Value) -> (r: Option<&mut Self>) {
        match v {
            Value::Char(x) => Some(x),
            _ => None,
        }
    }
}

impl Typed for String {
    open spec fn tag_spec() -> TypeTag {
        TypeTag::Text
    }

    open spec fn lift(self) -> Value {
        Value::Text(self)
    }

    proof fn lift_is_tagged(x: Self) {
    }

    proof fn lift_is_injective(x: Self, y: Self) {
    }

    fn tag() -> (t: TypeTag) {
        TypeTag::Text
    }

    fn into_value(self) -> (v: Value) {
        Value::Text(self)
    }

    fn take(v: Value) -> (r: Option<Self>) {
        match v {
            Value::Text(x) => Some(x),
            _ => None,
        }
    }

    fn peek(v: &Value) -> (r: Option<&Self>) {
        match v {
            Value::Text(x) => Some(x),
            _ => None,
        }
    }

    fn peek_mut(v: &mut Value) -> (r: Option<&mut Self>) {
        match v {
            Value::Text(x) => Some(x),
            _ => None,
        }
    }
}

impl Typed for &'static str {
    open spec fn tag_spec() -> TypeTag {
        TypeTag::Str
    }

    open spec fn lift(self) -> Value {
        Value::Str(self)
    }

    proof fn lift_is_tagged(x: Self) {
    }

    proof fn lift_is_injective(x: Self, y: Self) {
    }

    fn tag() -> (t: TypeTag) {
        TypeTag::Str
    }

    fn into_value(self) -> (v: Value) {
        Value::Str(self)
    }

    fn take(v: Value) -> (r: Option<Self>) {
        match v {
            Value::Str(x) => Some(x),
            _ => None,
        }
    }

    fn peek(v: &Value) -> (r: Option<&Self>) {
        match v {
            Value::Str(x) => Some(x),
            _ => None,
        }
    }

    fn peek_mut(v: &mut Value) -> (r: Option<&mut Self>) {
        match v {
            Value::Str(x) => Some(x),
            _ => None,
        }
    }
}

impl Typed for i8 {
    open spec fn tag_spec() -> TypeTag {
        TypeTag::I8
    }

    open spec fn lift(self) -> Value {
        Value::I8(self)
    }

    proof fn lift_is_tagged(x: Self) {
    }

    proof fn lift_is_injective(x: Self, y: Self) {
    }

    fn tag() -> (t: TypeTag) {
        TypeTag::I8
    }

    fn into_value(self) -> (v: Value) {
        Value::I8(self)
    }

    fn take(v: Value) -> (r: Option<Self>) {
        match v {
            Value::I8(x) => Some(x),
            _ => None,
        }
    }

    fn peek(v: &Value) -> (r: Option<&Self>) {
        match v {
            Value::I8(x) => Some(x),
            _ => None,
        }
    }

    fn peek_mut(v: &mut Value) -> (r: Option<&mut Self>) {
        match v {
            Value::I8(x) => Some(x),
            _ => None,
        }
    }
}

impl Typed for i16 {
    open spec fn tag_spec() -> TypeTag {
        TypeTag::I16
    }

    open spec fn lift(self) -> Value {
        Value::I16(self)
    }

    proof fn lift_is_tagged(x: Self) {
    }

    proof fn lift_is_injective(x: Self, y: Self) {
    }

    fn tag() -> (t: TypeTag) {
        TypeTag::I16
    }

    fn into_value(self) -> (v: Value) {
        Value::I16(self)
    }

    fn take(v: Value) -> (r: Option<Self>) {
        match v {
            Value::I16(x) => Some(x),
            _ => None,
        }
    }

    fn peek(v: &Value) -> (r: Option<&Self>) {
        match v {
            Value::I16(x) => Some(x),
            _ => None,
        }
    }

    fn peek_mut(v: &mut Value) -> (r: Option<&mut Self>) {
        match v {
            Value::I16(x) => Some(x),
            _ => None,
        }
    }
}

impl Typed for u8 {
    open spec fn tag_spec() -> TypeTag {
        TypeTag::U8
    }

    open spec fn lift(self) -> Value {
        Value::U8(self)
    }

    proof fn lift_is_tagged(x: Self) {
    }

    proof fn lift_is_injective(x: Self, y: Self) {
    }

    fn tag() -> (t: TypeTag) {
        TypeTag::U8
    }

    fn into_value(self) -> (v: Value) {
        Value::U8(self)
    }

    fn take(v: Value) -> (r: Option<Self>) {
        match v {
            Value::U8(x) => Some(x),
            _ => None,
        }
    }

    fn peek(v: &Value) -> (r: Option<&Self>) {
        match v {
            Value::U8(x) => Some(x),
            _ => None,
        }
    }

    fn peek_mut(v: &mut Value) -> (r: Option<&mut Self>) {
        match v {
            Value::U8(x) => Some(x),
            _ => None,
        }
    }
}

impl Typed for u16 {
    open spec fn tag_spec() -> TypeTag {
        TypeTag::U16
    }

    open spec fn lift(self) -> Value {
        Value::U16(self)
    }

    proof fn lift_is_tagged(x: Self) {
    }

    proof fn lift_is_injective(x: Self, y: Self) {
    }

    fn tag() -> (t: TypeTag) {
        TypeTag::U16
    }

    fn into_value(self) -> (v: Value) {
        Value::U16(self)
    }

    fn take(v: Value) -> (r: Option<Self>) {
        match v {
            Value::U16(x) => Some(x),
            _ => None,
        }
    }

    fn peek(v: &Value) -> (r: Option<&Self>) {
        match v {
            Value::U16(x) => Some(x),
            _ => None,
        }
    }

    fn peek_mut(v: &mut Value) -> (r: Option<&mut Self>) {
        match v {
            Value::U16(x) => Some(x),
            _ => None,
        }
    }
}

impl Typed for isize {
    open spec fn tag_spec() -> TypeTag {
        TypeTag::Isize
    }

    open spec fn lift(self) -> Value {
        Value::Isize(self)
    }

    proof fn lift_is_tagged(x: Self) {
    }

    proof fn lift_is_injective(x: Self, y: Self) {
    }

    fn tag() -> (t: TypeTag) {
        TypeTag::Isize
    }

    fn into_value(self) -> (v: Value) {
        Value::Isize(self)
    }

    fn take(v: Value) -> (r: Option<Self>) {
        match v {
            Value::Isize(x) => Some(x),
            _ => None,
        }
    }

    fn peek(v: &Value) -> (r: Option<&Self>) {
        match v {
            Value::Isize(x) => Some(x),
            _ => None,
        }
    }

    fn peek_mut(v: &mut Value) -> (r: Option<&mut Self>) {
        match v {
            Value::Isize(x) => Some(x),
            _ => None,
        }
    }
}

impl Typed for i128 {
    open spec fn tag_spec() -> TypeTag {
        TypeTag::I128
    }

    open spec fn lift(self) -> Value {
        Value::I128(self)
    }

    proof fn lift_is_tagged(x: Self) {
    }

    proof fn lift_is_injective(x: Self, y: Self) {
    }

    fn tag() -> (t: TypeTag) {
        TypeTag::I128
    }

    fn into_value(self) -> (v: Value) {
        Value::I128(self)
    }

    fn take(v: Value) -> (r: Option<Self>) {
        match v {
            Value::I128(x) => Some(x),
            _ => None,
        }
    }

    fn peek(v: &Value) -> (r: Option<&Self>) {
        match v {
            Value::I128(x) => Some(x),
            _ => None,
        }
    }

    fn peek_mut(v: &mut Value) -> (r: Option<&mut Self>) {
        match v {
            Value::I128(x) => Some(x),
            _ => None,
        }
    }
}

impl Typed for u128 {
    open spec fn tag_spec() -> TypeTag {
        TypeTag::U128
    }

    open spec fn lift(self) -> Value {
        Value::U128(self)
    }

    proof fn lift_is_tagged(x: Self) {
    }

    proof fn lift_is_injective(x: Self, y: Self) {
    }

    fn tag() -> (t: TypeTag) {
        TypeTag::U128
    }

    fn into_value(self) -> (v: Value) {
        Value::U128(self)
    }

    fn take(v: Value) -> (r: Option<Self>) {
        match v {
            Value::U128(x) => Some(x),
            _ => None,
        }
    }

    fn peek(v: &Value) -> (r: Option<&Self>) {
        match v {
            Value::U128(x) => Some(x),
            _ => None,
        }
    }

    fn peek_mut(v: &mut Value) -> (r: Option<&mut Self>) {
        match v {
            Value::U128(x) => Some(x),
            _ => None,
        }
    }
}

} // verus!
