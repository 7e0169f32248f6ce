//! The modeled host value space.
//!
//! The host owns a garbage-collected heap of values; native code only ever
//! holds opaque handles into it.  Here the heap is an explicit vector of
//! [`HostValue`]s and a handle is a typed index, so every contract can say
//! precisely which value a call created and what it holds.

use vstd::prelude::*;
use crate::status::Status;

verus! {

/// A method entry supplied when a class is defined: a property name plus an
/// opaque token standing for the native callback the host will invoke.
pub struct Property {
    pub name: Vec<u8>,
    pub method: u64,
}

/// The state of a promise-like host value.
pub enum PromiseState {
    Pending,
    /// Settled with the host value at the given heap index.
    Resolved { value: usize },
    /// Settled in the error state; the original error's kind and reason are
    /// kept verbatim.
    Rejected { status: Status, message: String },
}

/// A value living in the modeled host heap.
pub enum HostValue {
    Undefined,
    Null,
    Boolean { value: bool },
    /// The host number a native integer was stored into.  Widths up to 64
    /// signed bits are carried exactly; reading back checks the range.
    Number { value: i64 },
    /// An arbitrary-precision integer: sign bit plus little-endian 64-bit
    /// magnitude words.  Zero words is zero with either sign.
    BigInt { sign_bit: bool, words: Vec<u64> },
    /// An immutable string created from UTF-8 bytes.
    StrUtf8 { bytes: Vec<u8> },
    /// An immutable string created from UTF-16 code units.
    StrUtf16 { units: Vec<u16> },
    /// An immutable string created from Latin-1 bytes.
    StrLatin1 { bytes: Vec<u8> },
    /// A symbol; `description` is the heap index of the string value
    /// given as its description, if any.
    Symbol { description: Option<usize> },
    /// A plain object; once native data is wrapped onto it, `wrapped` holds
    /// the index of the backing allocation.
    Object { wrapped: Option<usize> },
    Array { length: usize },
    /// A byte buffer.  When it was created by transferring a native
    /// allocation, `backing` holds the allocation registered for
    /// finalization.
    Buffer { data: Vec<u8>, backing: Option<usize> },
    ArrayBuffer { data: Vec<u8>, backing: Option<usize> },
    /// An opaque wrapper exclusively owning the native value in the
    /// allocation at `alloc`.
    External { alloc: usize },
    Function { name: Vec<u8>, callback: u64, methods: Vec<Property> },
    ErrorObject { message: Vec<u8> },
    Promise { state: PromiseState },
}

/// Spec-level mirror of [`PromiseState`].
pub enum PromiseView {
    Pending,
    Resolved { value: int },
    Rejected { status: Status, message: Seq<char> },
}

/// Spec-level mirror of [`HostValue`].
pub enum ValueView {
    Undefined,
    Null,
    Boolean { value: bool },
    Number { value: i64 },
    BigInt { sign_bit: bool, words: Seq<u64> },
    StrUtf8 { bytes: Seq<u8> },
    StrUtf16 { units: Seq<u16> },
    StrLatin1 { bytes: Seq<u8> },
    Symbol { description: Option<int> },
    Object { wrapped: Option<int> },
    Array { length: int },
    Buffer { data: Seq<u8>, backing: Option<int> },
    ArrayBuffer { data: Seq<u8>, backing: Option<int> },
    External { alloc: int },
    Function { name: Seq<u8>, callback: u64, methods: Seq<(Seq<u8>, u64)> },
    ErrorObject { message: Seq<u8> },
    Promise { state: PromiseView },
}

impl View for PromiseState {
    type V = PromiseView;

    open spec fn view(&self) -> PromiseView {
        match self {
            PromiseState::Pending => PromiseView::Pending,
            PromiseState::Resolved { value } => PromiseView::Resolved { value: *value as int },
            PromiseState::Rejected { status, message } => PromiseView::Rejected {
                status: *status,
                message: message@,
            },
        }
    }
}

impl View for HostValue {
    type V = ValueView;

    open spec fn view(&self) -> ValueView {
        match self {
            HostValue::Undefined => ValueView::Undefined,
            HostValue::Null => ValueView::Null,
            HostValue::Boolean { value } => ValueView::Boolean { value: *value },
            HostValue::Number { value } => ValueView::Number { value: *value },
            HostValue::BigInt { sign_bit, words } => ValueView::BigInt {
                sign_bit: *sign_bit,
                words: words@,
            },
            HostValue::StrUtf8 { bytes } => ValueView::StrUtf8 { bytes: bytes@ },
            HostValue::StrUtf16 { units } => ValueView::StrUtf16 { units: units@ },
            HostValue::StrLatin1 { bytes } => ValueView::StrLatin1 { bytes: bytes@ },
            HostValue::Symbol { description } => ValueView::Symbol {
                description: match description {
                    Some(d) => Some(*d as int),
                    None => None,
                },
            },
            HostValue::Object { wrapped } => ValueView::Object {
                wrapped: match wrapped {
                    Some(a) => Some(*a as int),
                    None => None,
                },
            },
            HostValue::Array { length } => ValueView::Array { length: *length as int },
            HostValue::Buffer { data, backing } => ValueView::Buffer {
                data: data@,
                backing: match backing {
                    Some(a) => Some(*a as int),
                    None => None,
                },
            },
            HostValue::ArrayBuffer { data, backing } => ValueView::ArrayBuffer {
                data: data@,
                backing: match backing {
                    Some(a) => Some(*a as int),
                    None => None,
                },
            },
            HostValue::External { alloc } => ValueView::External { alloc: *alloc as int },
            HostValue::Function { name, callback, methods } => ValueView::Function {
                name: name@,
                callback: *callback,
                methods: methods@.map_values(|p: Property| (p.name@, p.method)),
            },
            HostValue::ErrorObject { message } => ValueView::ErrorObject { message: message@ },
            HostValue::Promise { state } => ValueView::Promise { state: state@ },
        }
    }
}

/// The runtime type of a host value, as the type-checked retrieval paths
/// classify it.
#[derive(Clone, Copy, Debug, PartialEq, Eq, Structural)]
pub enum ValueType {
    Undefined,
    Null,
    Boolean,
    Number,
    StringValue,
    Symbol,
    Object,
    Function,
    External,
    Bigint,
}

/// The runtime type of a value view.  All string encodings classify as
/// strings; buffers, arrays, errors and promises classify as objects.
pub open spec fn type_of_view(v: ValueView) -> ValueType {
    match v {
        ValueView::Undefined => ValueType::Undefined,
        ValueView::Null => ValueType::Null,
        ValueView::Boolean { .. } => ValueType::Boolean,
        ValueView::Number { .. } => ValueType::Number,
        ValueView::BigInt { .. } => ValueType::Bigint,
        ValueView::StrUtf8 { .. } => ValueType::StringValue,
        ValueView::StrUtf16 { .. } => ValueType::StringValue,
        ValueView::StrLatin1 { .. } => ValueType::StringValue,
        ValueView::Symbol { .. } => ValueType::Symbol,
        ValueView::Object { .. } => ValueType::Object,
        ValueView::Array { .. } => ValueType::Object,
        ValueView::Buffer { .. } => ValueType::Object,
        ValueView::ArrayBuffer { .. } => ValueType::Object,
        ValueView::External { .. } => ValueType::External,
        ValueView::Function { .. } => ValueType::Function,
        ValueView::ErrorObject { .. } => ValueType::Object,
        ValueView::Promise { .. } => ValueType::Object,
    }
}

impl HostValue {
    /// Classify this value, exactly as [`type_of_view`] does on its view.
    pub fn type_of(&self) -> (t: ValueType)
        ensures
            t == type_of_view(self@),
    {
        match self {
            HostValue::Undefined => ValueType::Undefined,
            HostValue::Null => ValueType::Null,
            HostValue::Boolean { .. } => ValueType::Boolean,
            HostValue::Number { .. } => ValueType::Number,
            HostValue::BigInt { .. } => ValueType::Bigint,
            HostValue::StrUtf8 { .. } => ValueType::StringValue,
            HostValue::StrUtf16 { .. } => ValueType::StringValue,
            HostValue::StrLatin1 { .. } => ValueType::StringValue,
            HostValue::Symbol { .. } => ValueType::Symbol,
            HostValue::Object { .. } => ValueType::Object,
            HostValue::Array { .. } => ValueType::Object,
            HostValue::Buffer { .. } => ValueType::Object,
            HostValue::ArrayBuffer { .. } => ValueType::Object,
            HostValue::External { .. } => ValueType::External,
            HostValue::Function { .. } => ValueType::Function,
            HostValue::ErrorObject { .. } => ValueType::Object,
            HostValue::Promise { .. } => ValueType::Object,
        }
    }
}

/// An opaque handle to an object value in the host heap.
#[derive(Clone, Copy, Debug, PartialEq, Eq, Structural)]
pub struct JsObject {
    pub idx: usize,
}

/// An opaque handle to a string value.
#[derive(Clone, Copy, Debug, PartialEq, Eq, Structural)]
pub struct JsString {
    pub idx: usize,
}

/// An opaque handle to a symbol value.
#[derive(Clone, Copy, Debug, PartialEq, Eq, Structural)]
pub struct JsSymbol {
    pub idx: usize,
}

/// An opaque handle to a number value.
#[derive(Clone, Copy, Debug, PartialEq, Eq, Structural)]
pub struct JsNumber {
    pub idx: usize,
}

/// An opaque handle to a boolean value.
#[derive(Clone, Copy, Debug, PartialEq, Eq, Structural)]
pub struct JsBoolean {
    pub idx: usize,
}

/// An opaque handle to the undefined value.
#[derive(Clone, Copy, Debug, PartialEq, Eq, Structural)]
pub struct JsUndefined {
    pub idx: usize,
}

/// An opaque handle to the null value.
#[derive(Clone, Copy, Debug, PartialEq, Eq, Structural)]
pub struct JsNull {
    pub idx: usize,
}

/// An opaque handle to a big integer value, carrying the word count it was
/// created with.
#[derive(Clone, Copy, Debug, PartialEq, Eq, Structural)]
pub struct JsBigint {
    pub idx: usize,
    pub word_count: usize,
}

/// An opaque handle to a buffer value.
#[derive(Clone, Copy, Debug, PartialEq, Eq, Structural)]
pub struct JsBuffer {
    pub idx: usize,
}

/// An opaque handle to an array-buffer value.
#[derive(Clone, Copy, Debug, PartialEq, Eq, Structural)]
pub struct JsArrayBuffer {
    pub idx: usize,
}

/// An opaque handle to an external value.
#[derive(Clone, Copy, Debug, PartialEq, Eq, Structural)]
pub struct JsExternal {
    pub idx: usize,
}

/// An opaque handle to a function value.
#[derive(Clone, Copy, Debug, PartialEq, Eq, Structural)]
pub struct JsFunction {
    pub idx: usize,
}

/// An opaque handle to the host's global object.
#[derive(Clone, Copy, Debug, PartialEq, Eq, Structural)]
pub struct JsGlobal {
    pub idx: usize,
}

/// An opaque handle whose runtime type has not been checked yet.
#[derive(Clone, Copy, Debug, PartialEq, Eq, Structural)]
pub struct JsUnknown {
    pub idx: usize,
}

/// A buffer handle together with the bytes it was created over, as the
/// caller-side view of the buffer's contents.
pub struct JsBufferValue {
    pub buffer: JsBuffer,
    pub data: Vec<u8>,
}

/// An array-buffer handle together with the bytes it was created over.
pub struct JsArrayBufferValue {
    pub arraybuffer: JsArrayBuffer,
    pub data: Vec<u8>,
}

} // verus!
