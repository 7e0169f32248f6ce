//! The per-invocation context and the modeled host instance behind it.
//!
//! `Env` stands for the opaque capability token the host hands to native
//! code for one invocation.  Because every boundary operation goes through
//! it, the host instance's observable state — its value heap, the native
//! allocations leaked to it for finalization, its reference table, the
//! external-memory counter, the pending-exception slot, cleanup hooks and
//! the instance-data singleton — is modeled as explicit state here, and
//! each operation's contract pins down the exact transition it makes.

use vstd::prelude::*;
use vstd::pervasive::VecAdditionalExecFns;
use vstd::string::StringExecFns;
use vstd::string::StringSliceAdditionalSpecFns;
use vstd::string::StrSliceExecFns;
use crate::status::{Error, Status};
use crate::value::{
    HostValue, JsArrayBuffer, JsArrayBufferValue, JsBigint, JsBoolean, JsBuffer, JsBufferValue,
    JsExternal, JsFunction, JsNull, JsNumber, JsObject, JsString, JsSymbol, JsUndefined,
    JsGlobal, JsUnknown, Property, ValueType, ValueView, type_of_view,
};
use crate::text::{bytes_eq, bytes_from_i8, contains_nul, copy_bytes, copy_words, has_nul_byte,
    parse_decimal_u32, units_eq, words_eq, zero_bytes, all_digits, dec_value};
use crate::bigint::{bigint_read_i64, bigint_read_i128, bigint_read_u128, bigint_value,
    i64_sign_and_word, i128_magnitude, join_u128, split_u128, words_value};

verus! {

broadcast use vstd::prelude::Seq::lemma_push_map_commute;

/// A native allocation whose ownership was leaked to the host at
/// registration and is reclaimed by exactly one finalize call.
pub enum AllocPayload {
    /// An erased native value behind a runtime type tag; `object` is the
    /// optional payload, which an explicit drop may clear while the
    /// allocation stays alive.  `size_hint` is the externally-allocated
    /// size reported to the host's accounting, to be reversed once on
    /// finalization.
    Tagged { tag: u64, object: Option<Vec<u8>>, size_hint: Option<i64> },
    /// The privately-defined hint of a transferred buffer: the original
    /// length and capacity, which must round-trip exactly so the original
    /// allocation can be reconstructed and dropped.
    Backing { length: usize, capacity: usize },
}

/// An allocation together with its finalization state.
pub struct Allocation {
    pub payload: AllocPayload,
    pub finalized: bool,
}

/// Spec-level mirror of [`AllocPayload`].
pub enum AllocPayloadView {
    Tagged { tag: u64, object: Option<Seq<u8>>, size_hint: Option<i64> },
    Backing { length: int, capacity: int },
}

/// Spec-level mirror of [`Allocation`].
pub struct AllocView {
    pub payload: AllocPayloadView,
    pub finalized: bool,
}

impl View for Allocation {
    type V = AllocView;

    open spec fn view(&self) -> AllocView {
        AllocView {
            payload: match &self.payload {
                AllocPayload::Tagged { tag, object, size_hint } => AllocPayloadView::Tagged {
                    tag: *tag,
                    object: match object {
                        Some(b) => Some(b@),
                        None => None,
                    },
                    size_hint: *size_hint,
                },
                AllocPayload::Backing { length, capacity } => AllocPayloadView::Backing {
                    length: *length as int,
                    capacity: *capacity as int,
                },
            },
            finalized: self.finalized,
        }
    }
}

/// A strong reference registered with the host: the heap index it pins and
/// its current count.
#[derive(Clone, Copy, Debug, PartialEq, Eq, Structural)]
pub struct RefRecord {
    pub target: usize,
    pub count: u32,
}

/// A strong reference handle returned to the caller, carrying the slot in
/// the reference table and the count it was created with.
#[derive(Clone, Copy, Debug, PartialEq, Eq, Structural)]
pub struct StrongRef {
    pub id: usize,
    pub count: u32,
}

/// The class of host exception a throw raises.
#[derive(Clone, Copy, Debug, PartialEq, Eq, Structural)]
pub enum ThrownKind {
    Plain,
    Range,
    Type,
}

/// A host-side exception raised by native code and not yet observed.
pub struct Exception {
    pub kind: ThrownKind,
    pub code: Option<Vec<u8>>,
    pub message: Vec<u8>,
    /// Whether the exception was escalated to an uncaught one.
    pub uncaught: bool,
}

/// Spec-level mirror of [`Exception`].
pub struct ExceptionView {
    pub kind: ThrownKind,
    pub code: Option<Seq<u8>>,
    pub message: Seq<u8>,
    pub uncaught: bool,
}

impl View for Exception {
    type V = ExceptionView;

    open spec fn view(&self) -> ExceptionView {
        ExceptionView {
            kind: self.kind,
            code: match &self.code {
                Some(c) => Some(c@),
                None => None,
            },
            message: self.message@,
            uncaught: self.uncaught,
        }
    }
}

/// The process-wide instance-data singleton: one type-tagged payload at a
/// time, with the finalize callback and hint registered alongside it.
pub struct InstanceData {
    pub tag: u64,
    pub object: Option<Vec<u8>>,
    pub hint: u64,
    pub finalize_cb: u64,
}

/// Spec-level mirror of [`InstanceData`].
pub struct InstanceView {
    pub tag: u64,
    pub object: Option<Seq<u8>>,
    pub hint: u64,
    pub finalize_cb: u64,
}

impl View for InstanceData {
    type V = InstanceView;

    open spec fn view(&self) -> InstanceView {
        InstanceView {
            tag: self.tag,
            object: match &self.object {
                Some(b) => Some(b@),
                None => None,
            },
            hint: self.hint,
            finalize_cb: self.finalize_cb,
        }
    }
}

/// The running host's version report: its semantic version and release
/// line, as the host hands them across the boundary.
pub struct NodeVersion {
    pub major: u32,
    pub minor: u32,
    pub patch: u32,
    pub release: Vec<u8>,
}

/// Spec-level mirror of [`NodeVersion`].
pub struct NodeVersionView {
    pub major: u32,
    pub minor: u32,
    pub patch: u32,
    pub release: Seq<u8>,
}

impl View for NodeVersion {
    type V = NodeVersionView;

    open spec fn view(&self) -> NodeVersionView {
        NodeVersionView {
            major: self.major,
            minor: self.minor,
            patch: self.patch,
            release: self.release@,
        }
    }
}

/// The observable state of the modeled host instance.
pub struct EnvView {
    pub token: u64,
    pub values: Seq<ValueView>,
    pub allocs: Seq<AllocView>,
    pub refs: Seq<RefRecord>,
    pub external_memory: int,
    pub pending: Option<ExceptionView>,
    pub fatality: Option<(Seq<u8>, Seq<u8>)>,
    pub cleanup_hooks: Seq<u64>,
    pub instance: Option<InstanceView>,
    pub instance_finalized: Seq<u64>,
    pub scope_depth: int,
    pub version_text: Seq<u8>,
    pub global: Option<int>,
    pub node_version: NodeVersionView,
}

/// The per-invocation context bound to one modeled host instance.
///
/// The host creates it per call; every operation needing host access
/// consumes it.  It must not be cached across invocations or moved to
/// another thread, and it becomes invalid when the owning native module
/// instance is unloaded.
pub struct Env {
    pub token: u64,
    pub values: Vec<HostValue>,
    pub allocs: Vec<Allocation>,
    pub refs: Vec<RefRecord>,
    pub external_memory: i64,
    pub pending: Option<Exception>,
    pub fatality: Option<(Vec<u8>, Vec<u8>)>,
    pub cleanup_hooks: Vec<u64>,
    pub instance: Option<InstanceData>,
    pub instance_finalized: Vec<u64>,
    pub scope_depth: usize,
    pub version_text: Vec<u8>,
    /// The global object's heap index, once it has been materialized.
    pub global: Option<usize>,
    pub node_version: NodeVersion,
}

impl View for Env {
    type V = EnvView;

    open spec fn view(&self) -> EnvView {
        EnvView {
            token: self.token,
            values: self.values@.map_values(|v: HostValue| v@),
            allocs: self.allocs@.map_values(|a: Allocation| a@),
            refs: self.refs@,
            external_memory: self.external_memory as int,
            pending: match &self.pending {
                Some(e) => Some(e@),
                None => None,
            },
            fatality: match &self.fatality {
                Some(f) => Some((f.0@, f.1@)),
                None => None,
            },
            cleanup_hooks: self.cleanup_hooks@,
            instance: match &self.instance {
                Some(d) => Some(d@),
                None => None,
            },
            instance_finalized: self.instance_finalized@,
            scope_depth: self.scope_depth as int,
            version_text: self.version_text@,
            global: match self.global {
                Some(g) => Some(g as int),
                None => None,
            },
            node_version: self.node_version@,
        }
    }
}

/// All host state other than the value heap is unchanged.
pub open spec fn same_except_values(pre: EnvView, post: EnvView) -> bool {
    &&& post.token == pre.token
    &&& post.allocs == pre.allocs
    &&& post.refs == pre.refs
    &&& post.external_memory == pre.external_memory
    &&& post.pending == pre.pending
    &&& post.fatality == pre.fatality
    &&& post.cleanup_hooks == pre.cleanup_hooks
    &&& post.instance == pre.instance
    &&& post.instance_finalized == pre.instance_finalized
    &&& post.scope_depth == pre.scope_depth
    &&& post.version_text == pre.version_text
    &&& post.global == pre.global
    &&& post.node_version == pre.node_version
}

/// Exactly one value was appended to the host heap and nothing else moved.
pub open spec fn pushed_value(pre: EnvView, post: EnvView, v: ValueView) -> bool {
    &&& post.values == pre.values.push(v)
    &&& same_except_values(pre, post)
}

/// A boundary call made while a host exception is pending leaves the state
/// untouched and surfaces the pending-exception error.
pub open spec fn blocked_call<T>(pre: EnvView, post: EnvView, r: Result<T, Error>) -> bool {
    &&& post == pre
    &&& r matches Err(e) && e.status == Status::PendingException
}

/// The fresh handle index for a value pushed onto the heap of `pre`.
pub open spec fn fresh_idx(pre: EnvView, idx: usize) -> bool {
    idx == pre.values.len()
}

impl Env {
    /// Whether a host exception is pending, blocking further boundary
    /// calls until it is observed.
    pub open spec fn blocked(&self) -> bool {
        self@.pending is Some
    }

    /// A fresh modeled host instance, identified by an opaque token, with
    /// the interface-version text and the version report the host hands
    /// across the boundary.
    pub fn new(token: u64, version_text: Vec<u8>, node_version: NodeVersion) -> (env: Env)
        ensures
            env@ == (EnvView {
                token,
                values: Seq::<ValueView>::empty(),
                allocs: Seq::<AllocView>::empty(),
                refs: Seq::<RefRecord>::empty(),
                external_memory: 0,
                pending: None,
                fatality: None,
                cleanup_hooks: Seq::<u64>::empty(),
                instance: None,
                instance_finalized: Seq::<u64>::empty(),
                scope_depth: 0,
                version_text: version_text@,
                global: None,
                node_version: node_version@,
            }),
    {
        let env = Env {
            token,
            values: Vec::new(),
            allocs: Vec::new(),
            refs: Vec::new(),
            external_memory: 0,
            pending: None,
            fatality: None,
            cleanup_hooks: Vec::new(),
            instance: None,
            instance_finalized: Vec::new(),
            scope_depth: 0,
            version_text,
            global: None,
            node_version,
        };
        proof {
            assert(env.values@.map_values(|v: HostValue| v@) =~= Seq::<ValueView>::empty());
            assert(env.allocs@.map_values(|a: Allocation| a@) =~= Seq::<AllocView>::empty());
        }
        env
    }

    /// The raw opaque token of this context.
    pub fn raw(&self) -> (t: u64)
        ensures
            t == self@.token,
    {
        self.token
    }

    /// The error every boundary call surfaces while an exception is
    /// pending.
    pub(crate) fn pending_error(&self) -> (e: Error)
        ensures
            e.status == Status::PendingException,
    {
        Error::new(Status::PendingException, String::from_str("a host exception is pending"))
    }

    /// Append a value to the host heap and hand back its index.
    fn push_raw(&mut self, v: HostValue) -> (idx: usize)
        ensures
            pushed_value(old(self)@, final(self)@, v@),
            fresh_idx(old(self)@, idx),
    {
        let idx = self.values.len();
        self.values.push(v);
        idx
    }

    /// Get the undefined value.
    pub fn get_undefined(&mut self) -> (r: Result<JsUndefined, Error>)
        ensures
            old(self).blocked() ==> blocked_call(old(self)@, final(self)@, r),
            !old(self).blocked() ==> pushed_value(old(self)@, final(self)@, ValueView::Undefined)
                && (r matches Ok(h) && fresh_idx(old(self)@, h.idx)),
    {
        if self.pending.is_some() {
            return Err(self.pending_error());
        }
        let idx = self.push_raw(HostValue::Undefined);
        Ok(JsUndefined { idx })
    }

    /// Get the null value.
    pub fn get_null(&mut self) -> (r: Result<JsNull, Error>)
        ensures
            old(self).blocked() ==> blocked_call(old(self)@, final(self)@, r),
            !old(self).blocked() ==> pushed_value(old(self)@, final(self)@, ValueView::Null)
                && (r matches Ok(h) && fresh_idx(old(self)@, h.idx)),
    {
        if self.pending.is_some() {
            return Err(self.pending_error());
        }
        let idx = self.push_raw(HostValue::Null);
        Ok(JsNull { idx })
    }

    /// Get a boolean value.
    pub fn get_boolean(&mut self, value: bool) -> (r: Result<JsBoolean, Error>)
        ensures
            old(self).blocked() ==> blocked_call(old(self)@, final(self)@, r),
            !old(self).blocked() ==> pushed_value(old(self)@, final(self)@, ValueView::Boolean { value })
                && (r matches Ok(h) && fresh_idx(old(self)@, h.idx)),
    {
        if self.pending.is_some() {
            return Err(self.pending_error());
        }
        let idx = self.push_raw(HostValue::Boolean { value });
        Ok(JsBoolean { idx })
    }

    /// Create a host number from a signed 32-bit integer; the stored
    /// 64-bit value carries it exactly.
    pub fn create_int32(&mut self, int_value: i32) -> (r: Result<JsNumber, Error>)
        ensures
            old(self).blocked() ==> blocked_call(old(self)@, final(self)@, r),
            !old(self).blocked() ==> pushed_value(
                old(self)@,
                final(self)@,
                ValueView::Number { value: int_value as i64 },
            ) && (r matches Ok(h) && fresh_idx(old(self)@, h.idx)),
    {
        if self.pending.is_some() {
            return Err(self.pending_error());
        }
        let idx = self.push_raw(HostValue::Number { value: int_value as i64 });
        Ok(JsNumber { idx })
    }

    /// Create a host number from a signed 64-bit integer.
    pub fn create_int64(&mut self, int_value: i64) -> (r: Result<JsNumber, Error>)
        ensures
            old(self).blocked() ==> blocked_call(old(self)@, final(self)@, r),
            !old(self).blocked() ==> pushed_value(
                old(self)@,
                final(self)@,
                ValueView::Number { value: int_value },
            ) && (r matches Ok(h) && fresh_idx(old(self)@, h.idx)),
    {
        if self.pending.is_some() {
            return Err(self.pending_error());
        }
        let idx = self.push_raw(HostValue::Number { value: int_value });
        Ok(JsNumber { idx })
    }

    /// Create a host number from an unsigned 32-bit integer.
    pub fn create_uint32(&mut self, number: u32) -> (r: Result<JsNumber, Error>)
        ensures
            old(self).blocked() ==> blocked_call(old(self)@, final(self)@, r),
            !old(self).blocked() ==> pushed_value(
                old(self)@,
                final(self)@,
                ValueView::Number { value: number as i64 },
            ) && (r matches Ok(h) && fresh_idx(old(self)@, h.idx)),
    {
        if self.pending.is_some() {
            return Err(self.pending_error());
        }
        let idx = self.push_raw(HostValue::Number { value: number as i64 });
        Ok(JsNumber { idx })
    }

    /// Read a number back as a signed 32-bit integer; values outside the
    /// range are rejected as invalid arguments, so a stored 32-bit value
    /// always reads back bit-exactly.
    pub fn get_value_int32(&self, h: JsNumber) -> (r: Result<i32, Error>)
        requires
            h.idx < self@.values.len(),
        ensures
            match self@.values[h.idx as int] {
                ValueView::Number { value } => {
                    if i32::MIN <= value <= i32::MAX {
                        r matches Ok(v) && v == value as i32
                    } else {
                        r matches Err(e) && e.status == Status::InvalidArg
                    }
                },
                _ => r matches Err(e) && e.status == Status::InvalidArg,
            },
    {
        match &self.values[h.idx] {
            HostValue::Number { value } => {
                let v = *value;
                if i32::MIN as i64 <= v && v <= i32::MAX as i64 {
                    Ok(v as i32)
                } else {
                    Err(Error::new(Status::InvalidArg, String::from_str(
                        "number does not fit in a signed 32-bit integer",
                    )))
                }
            },
            _ => Err(Error::new(Status::InvalidArg, String::from_str(
                "value is not a number",
            ))),
        }
    }

    /// Read a number back as an unsigned 32-bit integer.
    pub fn get_value_uint32(&self, h: JsNumber) -> (r: Result<u32, Error>)
        requires
            h.idx < self@.values.len(),
        ensures
            match self@.values[h.idx as int] {
                ValueView::Number { value } => {
                    if 0 <= value <= u32::MAX {
                        r matches Ok(v) && v == value as u32
                    } else {
                        r matches Err(e) && e.status == Status::InvalidArg
                    }
                },
                _ => r matches Err(e) && e.status == Status::InvalidArg,
            },
    {
        match &self.values[h.idx] {
            HostValue::Number { value } => {
                let v = *value;
                if 0 <= v && v <= u32::MAX as i64 {
                    Ok(v as u32)
                } else {
                    Err(Error::new(Status::InvalidArg, String::from_str(
                        "number does not fit in an unsigned 32-bit integer",
                    )))
                }
            },
            _ => Err(Error::new(Status::InvalidArg, String::from_str(
                "value is not a number",
            ))),
        }
    }

    /// Read a number back as a signed 64-bit integer.
    pub fn get_value_int64(&self, h: JsNumber) -> (r: Result<i64, Error>)
        requires
            h.idx < self@.values.len(),
        ensures
            match self@.values[h.idx as int] {
                ValueView::Number { value } => r matches Ok(v) && v == value,
                _ => r matches Err(e) && e.status == Status::InvalidArg,
            },
    {
        match &self.values[h.idx] {
            HostValue::Number { value } => Ok(*value),
            _ => Err(Error::new(Status::InvalidArg, String::from_str(
                "value is not a number",
            ))),
        }
    }
}


impl Env {
    /// Create an immutable host string from UTF-8 text.
    pub fn create_string(&mut self, s: &str) -> (r: Result<JsString, Error>)
        ensures
            old(self).blocked() ==> blocked_call(old(self)@, final(self)@, r),
            !old(self).blocked() ==> pushed_value(
                old(self)@,
                final(self)@,
                ValueView::StrUtf8 { bytes: s.spec_bytes() },
            ) && (r matches Ok(h) && fresh_idx(old(self)@, h.idx)),
    {
        if self.pending.is_some() {
            return Err(self.pending_error());
        }
        let bytes = s.as_bytes_vec();
        let idx = self.push_raw(HostValue::StrUtf8 { bytes });
        Ok(JsString { idx })
    }

    /// Create an immutable host string from an owned UTF-8 string.
    pub fn create_string_from_std(&mut self, s: String) -> (r: Result<JsString, Error>)
        ensures
            old(self).blocked() ==> blocked_call(old(self)@, final(self)@, r),
            !old(self).blocked() ==> pushed_value(
                old(self)@,
                final(self)@,
                ValueView::StrUtf8 { bytes: vstd::utf8::encode_utf8(s@) },
            ) && (r matches Ok(h) && fresh_idx(old(self)@, h.idx)),
    {
        if self.pending.is_some() {
            return Err(self.pending_error());
        }
        let bytes = s.as_str().as_bytes_vec();
        let idx = self.push_raw(HostValue::StrUtf8 { bytes });
        Ok(JsString { idx })
    }

    /// Create an immutable host string from raw bytes reinterpreted as
    /// UTF-8; no validation beyond what the host itself performs.
    pub fn create_string_from_vec_u8(&mut self, bytes: Vec<u8>) -> (r: Result<JsString, Error>)
        ensures
            old(self).blocked() ==> blocked_call(old(self)@, final(self)@, r),
            !old(self).blocked() ==> pushed_value(
                old(self)@,
                final(self)@,
                ValueView::StrUtf8 { bytes: bytes@ },
            ) && (r matches Ok(h) && fresh_idx(old(self)@, h.idx)),
    {
        if self.pending.is_some() {
            return Err(self.pending_error());
        }
        let idx = self.push_raw(HostValue::StrUtf8 { bytes });
        Ok(JsString { idx })
    }

    /// Create an immutable host string from signed bytes reinterpreted as
    /// UTF-8, one for one.
    pub fn create_string_from_vec_i8(&mut self, bytes: Vec<i8>) -> (r: Result<JsString, Error>)
        ensures
            old(self).blocked() ==> blocked_call(old(self)@, final(self)@, r),
            !old(self).blocked() ==> (r matches Ok(h) && fresh_idx(old(self)@, h.idx))
                && same_except_values(old(self)@, final(self)@)
                && final(self)@.values.len() == old(self)@.values.len() + 1
                && final(self)@.values.drop_last() == old(self)@.values
                && (final(self)@.values.last() matches ValueView::StrUtf8 { bytes: b }
                    && b.len() == bytes@.len()
                    && (forall|i: int| 0 <= i < bytes@.len() ==> b[i] == bytes@[i] as u8)),
    {
        if self.pending.is_some() {
            return Err(self.pending_error());
        }
        let converted = bytes_from_i8(bytes.as_slice());
        let idx = self.push_raw(HostValue::StrUtf8 { bytes: converted });
        Ok(JsString { idx })
    }

    /// Create an immutable host string from UTF-16 code units.
    pub fn create_string_utf16(&mut self, chars: &[u16]) -> (r: Result<JsString, Error>)
        ensures
            old(self).blocked() ==> blocked_call(old(self)@, final(self)@, r),
            !old(self).blocked() ==> pushed_value(
                old(self)@,
                final(self)@,
                ValueView::StrUtf16 { units: chars@ },
            ) && (r matches Ok(h) && fresh_idx(old(self)@, h.idx)),
    {
        if self.pending.is_some() {
            return Err(self.pending_error());
        }
        let units = vstd::slice::slice_to_vec(chars);
        let idx = self.push_raw(HostValue::StrUtf16 { units });
        Ok(JsString { idx })
    }

    /// Create an immutable host string from Latin-1 bytes.
    pub fn create_string_latin1(&mut self, chars: &[u8]) -> (r: Result<JsString, Error>)
        ensures
            old(self).blocked() ==> blocked_call(old(self)@, final(self)@, r),
            !old(self).blocked() ==> pushed_value(
                old(self)@,
                final(self)@,
                ValueView::StrLatin1 { bytes: chars@ },
            ) && (r matches Ok(h) && fresh_idx(old(self)@, h.idx)),
    {
        if self.pending.is_some() {
            return Err(self.pending_error());
        }
        let bytes = vstd::slice::slice_to_vec(chars);
        let idx = self.push_raw(HostValue::StrLatin1 { bytes });
        Ok(JsString { idx })
    }

    /// Create a symbol whose description is an existing host string of
    /// any encoding.
    pub fn create_symbol_from_js_string(&mut self, description: JsString) -> (r: Result<
        JsSymbol,
        Error,
    >)
        requires
            description.idx < old(self)@.values.len(),
            type_of_view(old(self)@.values[description.idx as int]) == ValueType::StringValue,
        ensures
            old(self).blocked() ==> blocked_call(old(self)@, final(self)@, r),
            !old(self).blocked() ==> pushed_value(
                old(self)@,
                final(self)@,
                ValueView::Symbol { description: Some(description.idx as int) },
            ) && (r matches Ok(h) && fresh_idx(old(self)@, h.idx)),
    {
        if self.pending.is_some() {
            return Err(self.pending_error());
        }
        let idx = self.push_raw(HostValue::Symbol { description: Some(description.idx) });
        Ok(JsSymbol { idx })
    }

    /// Create a symbol, first creating the host string for its optional
    /// description the way the string paths do; the symbol references
    /// that fresh string value.
    pub fn create_symbol(&mut self, description: Option<&str>) -> (r: Result<JsSymbol, Error>)
        ensures
            old(self).blocked() ==> blocked_call(old(self)@, final(self)@, r),
            !old(self).blocked() ==> match description {
                Some(d) => final(self)@ == (EnvView {
                    values: old(self)@.values.push(ValueView::StrUtf8 { bytes: d.spec_bytes() })
                        .push(
                        ValueView::Symbol {
                            description: Some(old(self)@.values.len() as int),
                        },
                    ),
                    ..old(self)@
                }) && (r matches Ok(h) && h.idx == old(self)@.values.len() + 1),
                None => pushed_value(
                    old(self)@,
                    final(self)@,
                    ValueView::Symbol { description: None },
                ) && (r matches Ok(h) && fresh_idx(old(self)@, h.idx)),
            },
    {
        if self.pending.is_some() {
            return Err(self.pending_error());
        }
        match description {
            Some(d) => {
                let bytes = d.as_bytes_vec();
                let desc_idx = self.push_raw(HostValue::StrUtf8 { bytes });
                let idx = self.push_raw(HostValue::Symbol { description: Some(desc_idx) });
                Ok(JsSymbol { idx })
            },
            None => {
                let idx = self.push_raw(HostValue::Symbol { description: None });
                Ok(JsSymbol { idx })
            },
        }
    }

    /// Create a plain object with nothing wrapped onto it.
    pub fn create_object(&mut self) -> (r: Result<JsObject, Error>)
        ensures
            old(self).blocked() ==> blocked_call(old(self)@, final(self)@, r),
            !old(self).blocked() ==> pushed_value(
                old(self)@,
                final(self)@,
                ValueView::Object { wrapped: None },
            ) && (r matches Ok(h) && fresh_idx(old(self)@, h.idx)),
    {
        if self.pending.is_some() {
            return Err(self.pending_error());
        }
        let idx = self.push_raw(HostValue::Object { wrapped: None });
        Ok(JsObject { idx })
    }

    /// Create an empty array.
    pub fn create_array(&mut self) -> (r: Result<JsObject, Error>)
        ensures
            old(self).blocked() ==> blocked_call(old(self)@, final(self)@, r),
            !old(self).blocked() ==> pushed_value(
                old(self)@,
                final(self)@,
                ValueView::Array { length: 0 },
            ) && (r matches Ok(h) && fresh_idx(old(self)@, h.idx)),
    {
        if self.pending.is_some() {
            return Err(self.pending_error());
        }
        let idx = self.push_raw(HostValue::Array { length: 0 });
        Ok(JsObject { idx })
    }

    /// Create an array of the given length.
    pub fn create_array_with_length(&mut self, length: usize) -> (r: Result<JsObject, Error>)
        ensures
            old(self).blocked() ==> blocked_call(old(self)@, final(self)@, r),
            !old(self).blocked() ==> pushed_value(
                old(self)@,
                final(self)@,
                ValueView::Array { length: length as int },
            ) && (r matches Ok(h) && fresh_idx(old(self)@, h.idx)),
    {
        if self.pending.is_some() {
            return Err(self.pending_error());
        }
        let idx = self.push_raw(HostValue::Array { length });
        Ok(JsObject { idx })
    }

    /// Create a function object in native code.  The name must be a valid
    /// C string: an interior NUL is a generic failure, as the boundary
    /// cannot carry it.
    pub fn create_function(&mut self, name: &str, callback: u64) -> (r: Result<JsFunction, Error>)
        ensures
            old(self).blocked() ==> blocked_call(old(self)@, final(self)@, r),
            !old(self).blocked() && contains_nul(name.spec_bytes()) ==> final(self)@ == old(self)@
                && (r matches Err(e) && e.status == Status::GenericFailure),
            !old(self).blocked() && !contains_nul(name.spec_bytes()) ==> pushed_value(
                old(self)@,
                final(self)@,
                ValueView::Function {
                    name: name.spec_bytes(),
                    callback,
                    methods: Seq::<(Seq<u8>, u64)>::empty(),
                },
            ) && (r matches Ok(h) && fresh_idx(old(self)@, h.idx)),
    {
        if self.pending.is_some() {
            return Err(self.pending_error());
        }
        let bytes = name.as_bytes_vec();
        if has_nul_byte(bytes.as_slice()) {
            return Err(Error::new(Status::GenericFailure, String::from_str(
                "function name holds an interior NUL",
            )));
        }
        let methods: Vec<Property> = Vec::new();
        proof {
            assert(Seq::<Property>::empty().map_values(|p: Property| (p.name@, p.method))
                =~= Seq::<(Seq<u8>, u64)>::empty());
        }
        let idx = self.push_raw(HostValue::Function { name: bytes, callback, methods });
        Ok(JsFunction { idx })
    }

    /// Create a class: a constructor function carrying the given method
    /// properties.  The name must be a valid C string.
    pub fn define_class(
        &mut self,
        name: &str,
        constructor_cb: u64,
        properties: &Vec<Property>,
    ) -> (r: Result<JsFunction, Error>)
        ensures
            old(self).blocked() ==> blocked_call(old(self)@, final(self)@, r),
            !old(self).blocked() && contains_nul(name.spec_bytes()) ==> final(self)@ == old(self)@
                && (r matches Err(e) && e.status == Status::GenericFailure),
            !old(self).blocked() && !contains_nul(name.spec_bytes()) ==> pushed_value(
                old(self)@,
                final(self)@,
                ValueView::Function {
                    name: name.spec_bytes(),
                    callback: constructor_cb,
                    methods: properties@.map_values(|p: Property| (p.name@, p.method)),
                },
            ) && (r matches Ok(h) && fresh_idx(old(self)@, h.idx)),
    {
        if self.pending.is_some() {
            return Err(self.pending_error());
        }
        let bytes = name.as_bytes_vec();
        if has_nul_byte(bytes.as_slice()) {
            return Err(Error::new(Status::GenericFailure, String::from_str(
                "class name holds an interior NUL",
            )));
        }
        let methods = copy_properties(properties);
        let idx = self.push_raw(HostValue::Function {
            name: bytes,
            callback: constructor_cb,
            methods,
        });
        Ok(JsFunction { idx })
    }

    /// Create a host error object from a typed error: the reason becomes a
    /// host string, then an error value carrying it.
    pub fn create_error(&mut self, e: Error) -> (r: Result<JsObject, Error>)
        ensures
            old(self).blocked() ==> blocked_call(old(self)@, final(self)@, r),
            !old(self).blocked() ==> final(self)@ == (EnvView {
                values: old(self)@.values.push(
                    ValueView::StrUtf8 { bytes: vstd::utf8::encode_utf8(e.reason@) },
                ).push(
                    ValueView::ErrorObject { message: vstd::utf8::encode_utf8(e.reason@) },
                ),
                ..old(self)@
            }) && (r matches Ok(h) && h.idx == old(self)@.values.len() + 1),
    {
        if self.pending.is_some() {
            return Err(self.pending_error());
        }
        let message = e.reason.as_str().as_bytes_vec();
        let copy = copy_bytes(&message);
        self.push_raw(HostValue::StrUtf8 { bytes: message });
        let idx = self.push_raw(HostValue::ErrorObject { message: copy });
        Ok(JsObject { idx })
    }
}

/// Copy a property list, preserving each name and method token.
fn copy_properties(props: &Vec<Property>) -> (r: Vec<Property>)
    ensures
        r@.map_values(|p: Property| (p.name@, p.method)) == props@.map_values(
            |p: Property| (p.name@, p.method),
        ),
{
    let mut out: Vec<Property> = Vec::new();
    let mut i: usize = 0;
    while i < props.len()
        invariant
            0 <= i <= props@.len(),
            out@.len() == i,
            forall|j: int| 0 <= j < i ==> (#[trigger] out@[j]).name@ == props@[j].name@
                && out@[j].method == props@[j].method,
        decreases props@.len() - i,
    {
        let name = copy_bytes(&props[i].name);
        let method = props[i].method;
        out.push(Property { name, method });
        i = i + 1;
    }
    proof {
        assert(out@.map_values(|p: Property| (p.name@, p.method)) =~= props@.map_values(
            |p: Property| (p.name@, p.method),
        ));
    }
    out
}


/// The size a registration reports to external-memory accounting.
pub open spec fn hint_size(size_hint: Option<i64>) -> int {
    match size_hint {
        Some(s) => s as int,
        None => 0,
    }
}

/// The accounting total after a sized creation reports its size.
pub open spec fn account_create(mem: int, size_hint: Option<i64>) -> int {
    mem + hint_size(size_hint)
}

/// The registered size an allocation's finalizer will reverse.
pub open spec fn alloc_registered_size(a: AllocView) -> int {
    match a.payload {
        AllocPayloadView::Tagged { size_hint, .. } => hint_size(size_hint),
        AllocPayloadView::Backing { length, .. } => length,
    }
}

/// A live type-tagged allocation as registration creates it.
pub open spec fn tagged_alloc(tag: u64, object: Seq<u8>, size_hint: Option<i64>) -> AllocView {
    AllocView {
        payload: AllocPayloadView::Tagged { tag, object: Some(object), size_hint },
        finalized: false,
    }
}

/// A live buffer-backing allocation as a transfer creates it.
pub open spec fn backing_alloc(length: int, capacity: int) -> AllocView {
    AllocView { payload: AllocPayloadView::Backing { length, capacity }, finalized: false }
}

/// The allocation after its payload is explicitly cleared in place; the
/// allocation itself stays alive for the host's later finalization.
pub open spec fn cleared_of(a: AllocView) -> AllocView {
    AllocView {
        payload: match a.payload {
            AllocPayloadView::Tagged { tag, object: _, size_hint } => AllocPayloadView::Tagged {
                tag,
                object: None,
                size_hint,
            },
            b => b,
        },
        finalized: a.finalized,
    }
}

/// The allocation after the host's one finalize call: the payload is
/// dropped and the transition to the finalized state is taken.
pub open spec fn finalized_of(a: AllocView) -> AllocView {
    AllocView {
        payload: match a.payload {
            AllocPayloadView::Tagged { tag, object: _, size_hint } => AllocPayloadView::Tagged {
                tag,
                object: None,
                size_hint,
            },
            b => b,
        },
        finalized: true,
    }
}

/// What a type-checked retrieval of a tagged payload returns: a tag
/// mismatch or a cleared payload is an invalid argument, and only a
/// matching tag with a live payload hands the value back.
pub open spec fn unwrap_spec(tag: u64, object: Option<Seq<u8>>, expected: u64) -> Result<
    Seq<u8>,
    Status,
> {
    if tag != expected {
        Err(Status::InvalidArg)
    } else {
        match object {
            Some(b) => Ok(b),
            None => Err(Status::InvalidArg),
        }
    }
}

/// A well-formed object handle position: in bounds, and any wrapped
/// allocation it points to is in bounds too.
pub open spec fn object_ok(e: EnvView, idx: int) -> bool {
    &&& 0 <= idx < e.values.len()
    &&& (e.values[idx] matches ValueView::Object { wrapped: Some(a) } ==> 0 <= a < e.allocs.len())
}

/// A well-formed external handle position.
pub open spec fn external_ok(e: EnvView, idx: int) -> bool {
    &&& 0 <= idx < e.values.len()
    &&& (e.values[idx] matches ValueView::External { alloc } ==> 0 <= alloc < e.allocs.len())
}

/// What retrieving the native value wrapped onto the object at `idx`
/// returns in state `e`.
pub open spec fn unwrap_read(e: EnvView, idx: int, expected: u64) -> Result<Seq<u8>, Status> {
    match e.values[idx] {
        ValueView::Object { wrapped } => match wrapped {
            Some(aid) => {
                let a = e.allocs[aid];
                if a.finalized {
                    Err(Status::InvalidArg)
                } else {
                    match a.payload {
                        AllocPayloadView::Tagged { tag, object, .. } => unwrap_spec(
                            tag,
                            object,
                            expected,
                        ),
                        _ => Err(Status::InvalidArg),
                    }
                }
            },
            None => Err(Status::InvalidArg),
        },
        _ => Err(Status::InvalidArg),
    }
}

/// What resolving the external value at `idx` returns in state `e`, with
/// the same tag-checked downcast discipline as unwrapping.
pub open spec fn external_read(e: EnvView, idx: int, expected: u64) -> Result<Seq<u8>, Status> {
    match e.values[idx] {
        ValueView::External { alloc } => {
            let a = e.allocs[alloc];
            if a.finalized {
                Err(Status::InvalidArg)
            } else {
                match a.payload {
                    AllocPayloadView::Tagged { tag, object, .. } => unwrap_spec(
                        tag,
                        object,
                        expected,
                    ),
                    _ => Err(Status::InvalidArg),
                }
            }
        },
        _ => Err(Status::InvalidArg),
    }
}

/// Mapping a view over an updated sequence updates the mapped sequence.
pub broadcast proof fn lemma_map_values_update<A, B>(s: Seq<A>, f: spec_fn(A) -> B, i: int, x: A)
    requires
        0 <= i < s.len(),
    ensures
        #[trigger] s.update(i, x).map_values(f) =~= s.map_values(f).update(i, f(x)),
{
}

impl Env {
    /// Wrap a native value onto an object: allocate a type-tagged
    /// allocation carrying it, leak ownership to the host, and register it
    /// for exactly one later finalization.  Wrapping an already-wrapped
    /// object is an invalid argument.
    pub fn wrap(&mut self, js_object: JsObject, tag: u64, native_object: Vec<u8>) -> (r: Result<
        (),
        Error,
    >)
        requires
            object_ok(old(self)@, js_object.idx as int),
        ensures
            old(self).blocked() ==> blocked_call(old(self)@, final(self)@, r),
            !old(self).blocked() ==> match old(self)@.values[js_object.idx as int] {
                ValueView::Object { wrapped: Some(_) } => final(self)@ == old(self)@
                    && (r matches Err(e) && e.status == Status::InvalidArg),
                _ => final(self)@ == (EnvView {
                    values: old(self)@.values.update(
                        js_object.idx as int,
                        ValueView::Object { wrapped: Some(old(self)@.allocs.len() as int) },
                    ),
                    allocs: old(self)@.allocs.push(tagged_alloc(tag, native_object@, None)),
                    ..old(self)@
                }) && r is Ok,
            },
    {
        broadcast use lemma_map_values_update;

        if self.pending.is_some() {
            return Err(self.pending_error());
        }
        let already = match &self.values[js_object.idx] {
            HostValue::Object { wrapped: Some(_) } => true,
            _ => false,
        };
        if already {
            return Err(Error::new(Status::InvalidArg, String::from_str(
                "object already has a native value wrapped onto it",
            )));
        }
        let aid = self.allocs.len();
        self.allocs.push(Allocation {
            payload: AllocPayload::Tagged { tag, object: Some(native_object), size_hint: None },
            finalized: false,
        });
        self.values.set(js_object.idx, HostValue::Object { wrapped: Some(aid) });
        Ok(())
    }

    /// Retrieve the native value wrapped onto an object.  Fails with an
    /// invalid argument when the stored tag does not match, when the
    /// payload was already cleared by an explicit drop, or when nothing is
    /// wrapped; a mismatched tag never hands out the payload.
    pub fn unwrap(&self, js_object: &JsObject, expected_tag: u64) -> (r: Result<Vec<u8>, Error>)
        requires
            object_ok(self@, js_object.idx as int),
        ensures
            self.blocked() ==> (r matches Err(e) && e.status == Status::PendingException),
            !self.blocked() ==> match unwrap_read(self@, js_object.idx as int, expected_tag) {
                Ok(b) => r matches Ok(v) && v@ == b,
                Err(st) => r matches Err(e) && e.status == st,
            },
    {
        if self.pending.is_some() {
            return Err(self.pending_error());
        }
        match &self.values[js_object.idx] {
            HostValue::Object { wrapped: Some(aid) } => {
                let a = &self.allocs[*aid];
                if a.finalized {
                    return Err(Error::new(Status::InvalidArg, String::from_str(
                        "nothing is attached to the object",
                    )));
                }
                match &a.payload {
                    AllocPayload::Tagged { tag, object, .. } => {
                        if *tag != expected_tag {
                            Err(Error::new(Status::InvalidArg, String::from_str(
                                "the expected type is not the type of the wrapped value",
                            )))
                        } else {
                            match object {
                                Some(b) => Ok(copy_bytes(b)),
                                None => Err(Error::new(Status::InvalidArg, String::from_str(
                                    "nothing is attached to the object",
                                ))),
                            }
                        }
                    },
                    _ => Err(Error::new(Status::InvalidArg, String::from_str(
                        "nothing is attached to the object",
                    ))),
                }
            },
            _ => Err(Error::new(Status::InvalidArg, String::from_str(
                "nothing is attached to the object",
            ))),
        }
    }

    /// Clear a wrapped payload in place without destroying the allocation:
    /// the host-side finalization still runs later, but finds no native
    /// value left to drop.  The stored tag must match.
    pub fn drop_wrapped(&mut self, js_object: JsObject, expected_tag: u64) -> (r: Result<
        (),
        Error,
    >)
        requires
            object_ok(old(self)@, js_object.idx as int),
        ensures
            old(self).blocked() ==> blocked_call(old(self)@, final(self)@, r),
            !old(self).blocked() ==> match old(self)@.values[js_object.idx as int] {
                ValueView::Object { wrapped: Some(aid) } => {
                    let a = old(self)@.allocs[aid];
                    if !a.finalized && (a.payload matches AllocPayloadView::Tagged { tag, .. }
                        && tag == expected_tag) {
                        final(self)@ == (EnvView {
                            allocs: old(self)@.allocs.update(aid, cleared_of(a)),
                            ..old(self)@
                        }) && r is Ok
                    } else {
                        final(self)@ == old(self)@ && (r matches Err(e) && e.status
                            == Status::InvalidArg)
                    }
                },
                _ => final(self)@ == old(self)@ && (r matches Err(e) && e.status
                    == Status::InvalidArg),
            },
    {
        broadcast use lemma_map_values_update;

        if self.pending.is_some() {
            return Err(self.pending_error());
        }
        let aid = match &self.values[js_object.idx] {
            HostValue::Object { wrapped: Some(aid) } => *aid,
            _ => {
                return Err(Error::new(Status::InvalidArg, String::from_str(
                    "nothing is attached to the object",
                )));
            },
        };
        let ok = match &self.allocs[aid] {
            Allocation { payload: AllocPayload::Tagged { tag, .. }, finalized: false } =>
                *tag == expected_tag,
            _ => false,
        };
        if !ok {
            return Err(Error::new(Status::InvalidArg, String::from_str(
                "the expected type is not the type of the wrapped value",
            )));
        }
        let (tag, size_hint) = match &self.allocs[aid] {
            Allocation { payload: AllocPayload::Tagged { tag, size_hint, .. }, .. } =>
                (*tag, *size_hint),
            _ => vstd::pervasive::unreached(),
        };
        self.allocs.set(aid, Allocation {
            payload: AllocPayload::Tagged { tag, object: None, size_hint },
            finalized: false,
        });
        Ok(())
    }

    /// Box a native value behind an opaque external wrapper.  A size hint,
    /// if given, is reported to external-memory accounting exactly once
    /// here and reversed exactly once at finalization.
    pub fn create_external(
        &mut self,
        tag: u64,
        native_object: Vec<u8>,
        size_hint: Option<i64>,
    ) -> (r: Result<JsExternal, Error>)
        requires
            i64::MIN <= account_create(old(self)@.external_memory, size_hint) <= i64::MAX,
        ensures
            old(self).blocked() ==> blocked_call(old(self)@, final(self)@, r),
            !old(self).blocked() ==> final(self)@ == (EnvView {
                values: old(self)@.values.push(
                    ValueView::External { alloc: old(self)@.allocs.len() as int },
                ),
                allocs: old(self)@.allocs.push(tagged_alloc(tag, native_object@, size_hint)),
                external_memory: account_create(old(self)@.external_memory, size_hint),
                ..old(self)@
            }) && (r matches Ok(h) && fresh_idx(old(self)@, h.idx)),
    {
        if self.pending.is_some() {
            return Err(self.pending_error());
        }
        let aid = self.allocs.len();
        self.allocs.push(Allocation {
            payload: AllocPayload::Tagged { tag, object: Some(native_object), size_hint },
            finalized: false,
        });
        let idx = self.values.len();
        self.values.push(HostValue::External { alloc: aid });
        match size_hint {
            Some(changed) => {
                self.external_memory = self.external_memory + changed;
            },
            None => {},
        }
        Ok(JsExternal { idx })
    }

    /// Resolve an external wrapper back to the native value it owns, with
    /// the same tag-checked downcast discipline as unwrapping.
    pub fn get_value_external(&self, js_external: &JsExternal, expected_tag: u64) -> (r: Result<
        Vec<u8>,
        Error,
    >)
        requires
            external_ok(self@, js_external.idx as int),
        ensures
            self.blocked() ==> (r matches Err(e) && e.status == Status::PendingException),
            !self.blocked() ==> match external_read(self@, js_external.idx as int, expected_tag) {
                Ok(b) => r matches Ok(v) && v@ == b,
                Err(st) => r matches Err(e) && e.status == st,
            },
    {
        if self.pending.is_some() {
            return Err(self.pending_error());
        }
        match &self.values[js_external.idx] {
            HostValue::External { alloc } => {
                let a = &self.allocs[*alloc];
                if a.finalized {
                    return Err(Error::new(Status::InvalidArg, String::from_str(
                        "nothing is attached to the external value",
                    )));
                }
                match &a.payload {
                    AllocPayload::Tagged { tag, object, .. } => {
                        if *tag != expected_tag {
                            Err(Error::new(Status::InvalidArg, String::from_str(
                                "the expected type is not the type of the external value",
                            )))
                        } else {
                            match object {
                                Some(b) => Ok(copy_bytes(b)),
                                None => Err(Error::new(Status::InvalidArg, String::from_str(
                                    "nothing is attached to the external value",
                                ))),
                            }
                        }
                    },
                    _ => Err(Error::new(Status::InvalidArg, String::from_str(
                        "nothing is attached to the external value",
                    ))),
                }
            },
            _ => Err(Error::new(Status::InvalidArg, String::from_str(
                "value is not an external value",
            ))),
        }
    }

    /// Report a change in externally-allocated memory kept alive by host
    /// objects; returns the adjusted total.
    pub fn adjust_external_memory(&mut self, size: i64) -> (r: Result<i64, Error>)
        requires
            i64::MIN <= old(self)@.external_memory + size <= i64::MAX,
        ensures
            old(self).blocked() ==> blocked_call(old(self)@, final(self)@, r),
            !old(self).blocked() ==> final(self)@ == (EnvView {
                external_memory: old(self)@.external_memory + size,
                ..old(self)@
            }) && (r matches Ok(t) && t == old(self)@.external_memory + size),
    {
        if self.pending.is_some() {
            return Err(self.pending_error());
        }
        self.external_memory = self.external_memory + size;
        Ok(self.external_memory)
    }

    /// The host collector's one finalize call for an allocation: the
    /// payload (if still present) is dropped, the allocation moves to the
    /// finalized state, and any registered size is reversed exactly once.
    /// The host contract guarantees a single call per allocation, which
    /// the precondition reflects.
    pub fn finalize_allocation(&mut self, id: usize)
        requires
            id < old(self)@.allocs.len(),
            !old(self)@.allocs[id as int].finalized,
            alloc_registered_size(old(self)@.allocs[id as int]) <= i64::MAX,
            i64::MIN <= old(self)@.external_memory
                - alloc_registered_size(old(self)@.allocs[id as int]) <= i64::MAX,
        ensures
            final(self)@ == (EnvView {
                allocs: old(self)@.allocs.update(
                    id as int,
                    finalized_of(old(self)@.allocs[id as int]),
                ),
                external_memory: old(self)@.external_memory
                    - alloc_registered_size(old(self)@.allocs[id as int]),
                ..old(self)@
            }),
    {
        broadcast use lemma_map_values_update;

        let (replacement, size): (Allocation, i64) = match &self.allocs[id] {
            Allocation { payload: AllocPayload::Tagged { tag, size_hint, .. }, .. } => (
                Allocation {
                    payload: AllocPayload::Tagged {
                        tag: *tag,
                        object: None,
                        size_hint: *size_hint,
                    },
                    finalized: true,
                },
                match size_hint {
                    Some(s) => *s,
                    None => 0,
                },
            ),
            Allocation { payload: AllocPayload::Backing { length, capacity }, .. } => (
                Allocation {
                    payload: AllocPayload::Backing { length: *length, capacity: *capacity },
                    finalized: true,
                },
                *length as i64,
            ),
        };
        self.allocs.set(id, replacement);
        self.external_memory = self.external_memory - size;
    }

    /// Create a strong reference with initial count 1 to the value at the
    /// given handle.
    pub fn create_reference(&mut self, value: JsUnknown) -> (r: Result<StrongRef, Error>)
        requires
            value.idx < old(self)@.values.len(),
        ensures
            old(self).blocked() ==> blocked_call(old(self)@, final(self)@, r),
            !old(self).blocked() ==> final(self)@ == (EnvView {
                refs: old(self)@.refs.push(RefRecord { target: value.idx, count: 1 }),
                ..old(self)@
            }) && (r matches Ok(s) && s.id == old(self)@.refs.len() && s.count == 1),
    {
        if self.pending.is_some() {
            return Err(self.pending_error());
        }
        let id = self.refs.len();
        self.refs.push(RefRecord { target: value.idx, count: 1 });
        Ok(StrongRef { id, count: 1 })
    }

    /// Resolve a reference back to a value, validating the runtime type of
    /// the resolved value: a mismatch is an invalid argument.
    pub fn get_reference_value(&self, reference: &StrongRef, expected_type: ValueType) -> (r:
        Result<JsUnknown, Error>)
        requires
            reference.id < self@.refs.len(),
            self@.refs[reference.id as int].target < self@.values.len(),
        ensures
            self.blocked() ==> (r matches Err(e) && e.status == Status::PendingException),
            !self.blocked() ==> {
                let target = self@.refs[reference.id as int].target;
                if type_of_view(self@.values[target as int]) == expected_type {
                    r matches Ok(h) && h.idx == target
                } else {
                    r matches Err(e) && e.status == Status::InvalidArg
                }
            },
    {
        if self.pending.is_some() {
            return Err(self.pending_error());
        }
        let target = self.refs[reference.id].target;
        let actual = self.values[target].type_of();
        if actual == expected_type {
            Ok(JsUnknown { idx: target })
        } else {
            Err(Error::new(Status::InvalidArg, String::from_str(
                "the referenced value does not have the expected type",
            )))
        }
    }

    /// Resolve a reference back to a value without checking its runtime
    /// type: the trusted fast path.  Incorrect use is not reported here;
    /// it surfaces as an invalid argument on the first typed use of the
    /// returned handle.
    pub fn get_reference_value_unchecked(&self, reference: &StrongRef) -> (r: Result<
        JsUnknown,
        Error,
    >)
        requires
            reference.id < self@.refs.len(),
        ensures
            self.blocked() ==> (r matches Err(e) && e.status == Status::PendingException),
            !self.blocked() ==> (r matches Ok(h) && h.idx == self@.refs[
                reference.id as int
            ].target),
    {
        if self.pending.is_some() {
            return Err(self.pending_error());
        }
        Ok(JsUnknown { idx: self.refs[reference.id].target })
    }
}

/// Wrapping then unwrapping with the same tag returns the original value,
/// and unwrapping with a mismatched tag fails with an invalid argument,
/// independently of the payload — stated over the exact state transition
/// that wrapping makes.
pub proof fn lemma_wrap_then_unwrap(e: EnvView, idx: int, tag: u64, expected: u64, object: Seq<u8>)
    requires
        object_ok(e, idx),
        e.values[idx] matches ValueView::Object { wrapped: None },
    ensures
        ({
            let post = EnvView {
                values: e.values.update(
                    idx,
                    ValueView::Object { wrapped: Some(e.allocs.len() as int) },
                ),
                allocs: e.allocs.push(tagged_alloc(tag, object, None)),
                ..e
            };
            &&& (expected == tag ==> unwrap_read(post, idx, expected) == Ok::<Seq<u8>, Status>(
                object,
            ))
            &&& (expected != tag ==> unwrap_read(post, idx, expected) == Err::<Seq<u8>, Status>(
                Status::InvalidArg,
            ))
        }),
{
}


/// A mismatched tag fails without the payload being looked at: the result
/// is the same whether or not a payload is present.
pub proof fn lemma_mismatch_ignores_payload(tag: u64, expected: u64, object: Option<Seq<u8>>)
    requires
        tag != expected,
    ensures
        unwrap_spec(tag, object, expected) == Err::<Seq<u8>, Status>(Status::InvalidArg),
{
}

/// Clearing a wrapped payload makes retrieval fail with an invalid
/// argument, while the host's later finalize call still completes on the
/// cleared allocation: it takes the one transition to the finalized state
/// and reverses exactly the same registered size as it would have — the
/// payload is dropped at most once and the accounting at most once.
pub proof fn lemma_drop_then_finalize(a: AllocView)
    requires
        a.payload matches AllocPayloadView::Tagged { .. },
        !a.finalized,
    ensures
        (cleared_of(a).payload matches AllocPayloadView::Tagged { tag, object, .. }
            ==> unwrap_spec(tag, object, tag) == Err::<Seq<u8>, Status>(Status::InvalidArg)),
        !cleared_of(a).finalized,
        finalized_of(cleared_of(a)) == finalized_of(a),
        alloc_registered_size(cleared_of(a)) == alloc_registered_size(a),
{
}

/// Net-zero external-memory accounting: the adjustment recorded when a
/// sized external value is created is exactly the registered size its
/// finalizer reverses, so creation followed by finalization restores the
/// original total.
pub proof fn lemma_accounting_net_zero(
    mem: int,
    tag: u64,
    object: Seq<u8>,
    size_hint: Option<i64>,
)
    ensures
        account_create(mem, size_hint) - alloc_registered_size(tagged_alloc(tag, object, size_hint))
            == mem,
{
}

/// Net-zero accounting for transferred buffers: the length reported when
/// a buffer takes ownership of a native allocation is exactly what its
/// backing allocation's finalizer reverses.
pub proof fn lemma_buffer_accounting_net_zero(mem: int, length: int, capacity: int)
    ensures
        (mem + length) - alloc_registered_size(backing_alloc(length, capacity)) == mem,
{
}

/// Integer round trip, 32-bit signed: a value stored as a host number is
/// in range and reads back bit-exactly.
pub proof fn lemma_i32_round_trip(v: i32)
    ensures
        i32::MIN <= (v as i64) <= i32::MAX,
        ((v as i64) as i32) == v,
{
}

/// Integer round trip, 32-bit unsigned.
pub proof fn lemma_u32_round_trip(v: u32)
    ensures
        0 <= (v as i64) <= u32::MAX,
        ((v as i64) as u32) == v,
{
}


impl Env {
    /// Allocate a buffer of the given length for the caller to fill.  The
    /// host-managed memory starts zeroed, and the returned value carries a
    /// caller-side view of the same bytes.
    pub fn create_buffer(&mut self, length: usize) -> (r: Result<JsBufferValue, Error>)
        ensures
            old(self).blocked() ==> blocked_call(old(self)@, final(self)@, r),
            !old(self).blocked() ==> (r matches Ok(bv) && fresh_idx(old(self)@, bv.buffer.idx)
                && bv.data@.len() == length
                && (forall|i: int| 0 <= i < length ==> bv.data@[i] == 0)
                && pushed_value(
                old(self)@,
                final(self)@,
                ValueView::Buffer { data: bv.data@, backing: None },
            )),
    {
        if self.pending.is_some() {
            return Err(self.pending_error());
        }
        let data = zero_bytes(length);
        let stored = copy_bytes(&data);
        let idx = self.push_raw(HostValue::Buffer { data: stored, backing: None });
        Ok(JsBufferValue { buffer: JsBuffer { idx }, data })
    }

    /// Transfer an existing native allocation into a buffer without
    /// copying: a backing allocation recording the original length and
    /// capacity is registered for finalization, and the buffer's size is
    /// reported to external-memory accounting, to be reversed exactly once
    /// when the backing allocation is finalized.
    pub fn create_buffer_with_data(&mut self, data: Vec<u8>) -> (r: Result<JsBufferValue, Error>)
        requires
            data@.len() <= i64::MAX,
            old(self)@.external_memory + data@.len() <= i64::MAX,
        ensures
            old(self).blocked() ==> blocked_call(old(self)@, final(self)@, r),
            !old(self).blocked() ==> final(self)@ == (EnvView {
                values: old(self)@.values.push(
                    ValueView::Buffer {
                        data: data@,
                        backing: Some(old(self)@.allocs.len() as int),
                    },
                ),
                allocs: old(self)@.allocs.push(
                    backing_alloc(data@.len() as int, data@.len() as int),
                ),
                external_memory: old(self)@.external_memory + data@.len(),
                ..old(self)@
            }) && (r matches Ok(bv) && fresh_idx(old(self)@, bv.buffer.idx)
                && bv.data@ == data@),
    {
        if self.pending.is_some() {
            return Err(self.pending_error());
        }
        let length = data.len();
        let aid = self.allocs.len();
        self.allocs.push(Allocation {
            payload: AllocPayload::Backing { length, capacity: length },
            finalized: false,
        });
        let view = copy_bytes(&data);
        let idx = self.values.len();
        self.values.push(HostValue::Buffer { data, backing: Some(aid) });
        self.external_memory = self.external_memory + length as i64;
        Ok(JsBufferValue { buffer: JsBuffer { idx }, data: view })
    }

    /// Duplicate the given bytes into a host-allocated buffer; the source
    /// stays owned by the caller and is not touched.
    pub fn create_buffer_copy(&mut self, data_to_copy: &[u8]) -> (r: Result<JsBufferValue, Error>)
        ensures
            old(self).blocked() ==> blocked_call(old(self)@, final(self)@, r),
            !old(self).blocked() ==> pushed_value(
                old(self)@,
                final(self)@,
                ValueView::Buffer { data: data_to_copy@, backing: None },
            ) && (r matches Ok(bv) && fresh_idx(old(self)@, bv.buffer.idx)
                && bv.data@ == data_to_copy@),
    {
        if self.pending.is_some() {
            return Err(self.pending_error());
        }
        let stored = vstd::slice::slice_to_vec(data_to_copy);
        let view = copy_bytes(&stored);
        let idx = self.push_raw(HostValue::Buffer { data: stored, backing: None });
        Ok(JsBufferValue { buffer: JsBuffer { idx }, data: view })
    }

    /// Expose caller-owned bytes as a buffer without registering a
    /// finalizer and without touching external-memory accounting: the
    /// caller remains responsible for keeping the bytes alive until the
    /// host is done with the buffer.
    pub fn create_buffer_with_manually_drop_data(&mut self, data: &[u8]) -> (r: Result<
        JsBufferValue,
        Error,
    >)
        ensures
            old(self).blocked() ==> blocked_call(old(self)@, final(self)@, r),
            !old(self).blocked() ==> pushed_value(
                old(self)@,
                final(self)@,
                ValueView::Buffer { data: data@, backing: None },
            ) && (r matches Ok(bv) && fresh_idx(old(self)@, bv.buffer.idx)
                && bv.data@ == data@),
    {
        if self.pending.is_some() {
            return Err(self.pending_error());
        }
        let stored = vstd::slice::slice_to_vec(data);
        let view = copy_bytes(&stored);
        let idx = self.push_raw(HostValue::Buffer { data: stored, backing: None });
        Ok(JsBufferValue { buffer: JsBuffer { idx }, data: view })
    }

    /// Allocate an array buffer of the given length, zeroed.
    pub fn create_arraybuffer(&mut self, length: usize) -> (r: Result<JsArrayBufferValue, Error>)
        ensures
            old(self).blocked() ==> blocked_call(old(self)@, final(self)@, r),
            !old(self).blocked() ==> (r matches Ok(bv)
                && fresh_idx(old(self)@, bv.arraybuffer.idx)
                && bv.data@.len() == length
                && (forall|i: int| 0 <= i < length ==> bv.data@[i] == 0)
                && pushed_value(
                old(self)@,
                final(self)@,
                ValueView::ArrayBuffer { data: bv.data@, backing: None },
            )),
    {
        if self.pending.is_some() {
            return Err(self.pending_error());
        }
        let data = zero_bytes(length);
        let stored = copy_bytes(&data);
        let idx = self.push_raw(HostValue::ArrayBuffer { data: stored, backing: None });
        Ok(JsArrayBufferValue { arraybuffer: JsArrayBuffer { idx }, data })
    }

    /// Transfer an existing native allocation into an array buffer, with
    /// the same backing registration and accounting as the buffer
    /// transfer path.
    pub fn create_arraybuffer_with_data(&mut self, data: Vec<u8>) -> (r: Result<
        JsArrayBufferValue,
        Error,
    >)
        requires
            data@.len() <= i64::MAX,
            old(self)@.external_memory + data@.len() <= i64::MAX,
        ensures
            old(self).blocked() ==> blocked_call(old(self)@, final(self)@, r),
            !old(self).blocked() ==> final(self)@ == (EnvView {
                values: old(self)@.values.push(
                    ValueView::ArrayBuffer {
                        data: data@,
                        backing: Some(old(self)@.allocs.len() as int),
                    },
                ),
                allocs: old(self)@.allocs.push(
                    backing_alloc(data@.len() as int, data@.len() as int),
                ),
                external_memory: old(self)@.external_memory + data@.len(),
                ..old(self)@
            }) && (r matches Ok(bv) && fresh_idx(old(self)@, bv.arraybuffer.idx)
                && bv.data@ == data@),
    {
        if self.pending.is_some() {
            return Err(self.pending_error());
        }
        let length = data.len();
        let aid = self.allocs.len();
        self.allocs.push(Allocation {
            payload: AllocPayload::Backing { length, capacity: length },
            finalized: false,
        });
        let view = copy_bytes(&data);
        let idx = self.values.len();
        self.values.push(HostValue::ArrayBuffer { data, backing: Some(aid) });
        self.external_memory = self.external_memory + length as i64;
        Ok(JsArrayBufferValue { arraybuffer: JsArrayBuffer { idx }, data: view })
    }

    /// Create a big integer from a signed 64-bit value: the sign bit and
    /// one magnitude word.
    pub fn create_bigint_from_i64(&mut self, value: i64) -> (r: Result<JsBigint, Error>)
        ensures
            old(self).blocked() ==> blocked_call(old(self)@, final(self)@, r),
            !old(self).blocked() ==> pushed_value(
                old(self)@,
                final(self)@,
                ValueView::BigInt {
                    sign_bit: value < 0,
                    words: seq![(if value < 0 { -(value as int) } else { value as int }) as u64],
                },
            ) && (r matches Ok(h) && fresh_idx(old(self)@, h.idx) && h.word_count == 1),
    {
        if self.pending.is_some() {
            return Err(self.pending_error());
        }
        let (sign_bit, word) = i64_sign_and_word(value);
        let mut words: Vec<u64> = Vec::new();
        words.push(word);
        proof {
            assert(words@ =~= seq![word]);
        }
        let idx = self.push_raw(HostValue::BigInt { sign_bit, words });
        Ok(JsBigint { idx, word_count: 1 })
    }

    /// Create a big integer from an unsigned 64-bit value: one word, sign
    /// bit clear.
    pub fn create_bigint_from_u64(&mut self, value: u64) -> (r: Result<JsBigint, Error>)
        ensures
            old(self).blocked() ==> blocked_call(old(self)@, final(self)@, r),
            !old(self).blocked() ==> pushed_value(
                old(self)@,
                final(self)@,
                ValueView::BigInt { sign_bit: false, words: seq![value] },
            ) && (r matches Ok(h) && fresh_idx(old(self)@, h.idx) && h.word_count == 1),
    {
        if self.pending.is_some() {
            return Err(self.pending_error());
        }
        let mut words: Vec<u64> = Vec::new();
        words.push(value);
        proof {
            assert(words@ =~= seq![value]);
        }
        let idx = self.push_raw(HostValue::BigInt { sign_bit: false, words });
        Ok(JsBigint { idx, word_count: 1 })
    }

    /// Create a big integer from a signed 128-bit value: the sign bit is
    /// set exactly for negative values, and the two stored words are the
    /// little-endian magnitude, so the created value is exactly the
    /// native one.
    pub fn create_bigint_from_i128(&mut self, value: i128) -> (r: Result<JsBigint, Error>)
        ensures
            old(self).blocked() ==> blocked_call(old(self)@, final(self)@, r),
            !old(self).blocked() ==> (r matches Ok(h) && fresh_idx(old(self)@, h.idx)
                && h.word_count == 2)
                && same_except_values(old(self)@, final(self)@)
                && final(self)@.values.len() == old(self)@.values.len() + 1
                && final(self)@.values.drop_last() == old(self)@.values
                && (final(self)@.values.last() matches ValueView::BigInt { sign_bit, words }
                    && sign_bit == (value < 0)
                    && words.len() == 2
                    && bigint_value(sign_bit, words) == value),
    {
        if self.pending.is_some() {
            return Err(self.pending_error());
        }
        let magnitude = i128_magnitude(value);
        let (lo, hi) = split_u128(magnitude);
        let sign_bit = value < 0;
        let mut words: Vec<u64> = Vec::new();
        words.push(lo);
        words.push(hi);
        proof {
            assert(words@ =~= seq![lo, hi]);
            crate::bigint::lemma_u128_words_exact(magnitude, lo, hi);
        }
        let idx = self.push_raw(HostValue::BigInt { sign_bit, words });
        Ok(JsBigint { idx, word_count: 2 })
    }

    /// Create a big integer from an unsigned 128-bit value: its two
    /// little-endian words, sign bit clear.
    pub fn create_bigint_from_u128(&mut self, value: u128) -> (r: Result<JsBigint, Error>)
        ensures
            old(self).blocked() ==> blocked_call(old(self)@, final(self)@, r),
            !old(self).blocked() ==> (r matches Ok(h) && fresh_idx(old(self)@, h.idx)
                && h.word_count == 2)
                && same_except_values(old(self)@, final(self)@)
                && final(self)@.values.len() == old(self)@.values.len() + 1
                && final(self)@.values.drop_last() == old(self)@.values
                && (final(self)@.values.last() matches ValueView::BigInt { sign_bit, words }
                    && sign_bit == false
                    && words.len() == 2
                    && words_value(words) == value),
    {
        if self.pending.is_some() {
            return Err(self.pending_error());
        }
        let (lo, hi) = split_u128(value);
        let mut words: Vec<u64> = Vec::new();
        words.push(lo);
        words.push(hi);
        proof {
            assert(words@ =~= seq![lo, hi]);
            crate::bigint::lemma_u128_words_exact(value, lo, hi);
        }
        let idx = self.push_raw(HostValue::BigInt { sign_bit: false, words });
        Ok(JsBigint { idx, word_count: 2 })
    }

    /// Create a big integer from a sign bit and little-endian magnitude
    /// words; the resulting value is negative when the sign bit is set,
    /// and zero words is zero with either sign.
    pub fn create_bigint_from_words(&mut self, sign_bit: bool, words: Vec<u64>) -> (r: Result<
        JsBigint,
        Error,
    >)
        ensures
            old(self).blocked() ==> blocked_call(old(self)@, final(self)@, r),
            !old(self).blocked() ==> pushed_value(
                old(self)@,
                final(self)@,
                ValueView::BigInt { sign_bit, words: words@ },
            ) && (r matches Ok(h) && fresh_idx(old(self)@, h.idx)
                && h.word_count == words@.len()),
    {
        if self.pending.is_some() {
            return Err(self.pending_error());
        }
        let word_count = words.len();
        let idx = self.push_raw(HostValue::BigInt { sign_bit, words });
        Ok(JsBigint { idx, word_count })
    }

    /// Read a big integer back as its sign bit and words.
    pub fn get_bigint_words(&self, h: &JsBigint) -> (r: Result<(bool, Vec<u64>), Error>)
        requires
            h.idx < self@.values.len(),
        ensures
            self.blocked() ==> (r matches Err(e) && e.status == Status::PendingException),
            !self.blocked() ==> match self@.values[h.idx as int] {
                ValueView::BigInt { sign_bit, words } => r matches Ok(p) && p.0 == sign_bit
                    && p.1@ == words,
                _ => r matches Err(e) && e.status == Status::InvalidArg,
            },
    {
        if self.pending.is_some() {
            return Err(self.pending_error());
        }
        match &self.values[h.idx] {
            HostValue::BigInt { sign_bit, words } => Ok((*sign_bit, copy_words(words))),
            _ => Err(Error::new(Status::InvalidArg, String::from_str(
                "value is not a big integer",
            ))),
        }
    }

    /// Read a big integer back as an unsigned 128-bit value, exactly as
    /// [`bigint_read_u128`] specifies: at most two words, and no strictly
    /// negative value.
    pub fn get_bigint_u128(&self, h: &JsBigint) -> (r: Result<u128, Error>)
        requires
            h.idx < self@.values.len(),
        ensures
            self.blocked() ==> (r matches Err(e) && e.status == Status::PendingException),
            !self.blocked() ==> match self@.values[h.idx as int] {
                ValueView::BigInt { sign_bit, words } => match bigint_read_u128(sign_bit, words) {
                    Ok(v) => r matches Ok(x) && x == v,
                    Err(st) => r matches Err(e) && e.status == st,
                },
                _ => r matches Err(e) && e.status == Status::InvalidArg,
            },
    {
        if self.pending.is_some() {
            return Err(self.pending_error());
        }
        match &self.values[h.idx] {
            HostValue::BigInt { sign_bit, words } => {
                if words.len() > 2 {
                    return Err(Error::new(Status::InvalidArg, String::from_str(
                        "big integer does not fit in 128 bits",
                    )));
                }
                let lo = if words.len() >= 1 { words[0] } else { 0 };
                let hi = if words.len() >= 2 { words[1] } else { 0 };
                proof {
                    if words@.len() == 0 {
                        crate::bigint::lemma_words_value_empty();
                        assert(words@ =~= Seq::<u64>::empty());
                    } else if words@.len() == 1 {
                        crate::bigint::lemma_words_value_one(lo);
                        assert(words@ =~= seq![lo]);
                    } else {
                        crate::bigint::lemma_words_value_two(lo, hi);
                        assert(words@ =~= seq![lo, hi]);
                    }
                }
                let magnitude = join_u128(lo, hi);
                if *sign_bit && magnitude != 0 {
                    return Err(Error::new(Status::InvalidArg, String::from_str(
                        "big integer is negative",
                    )));
                }
                Ok(magnitude)
            },
            _ => Err(Error::new(Status::InvalidArg, String::from_str(
                "value is not a big integer",
            ))),
        }
    }

    /// Read a big integer back as a signed 128-bit value, exactly as
    /// [`bigint_read_i128`] specifies: at most two magnitude words, and a
    /// value within the signed 128-bit range.
    pub fn get_bigint_i128(&self, h: &JsBigint) -> (r: Result<i128, Error>)
        requires
            h.idx < self@.values.len(),
        ensures
            self.blocked() ==> (r matches Err(e) && e.status == Status::PendingException),
            !self.blocked() ==> match self@.values[h.idx as int] {
                ValueView::BigInt { sign_bit, words } => match bigint_read_i128(sign_bit, words) {
                    Ok(v) => r matches Ok(x) && x == v,
                    Err(st) => r matches Err(e) && e.status == st,
                },
                _ => r matches Err(e) && e.status == Status::InvalidArg,
            },
    {
        if self.pending.is_some() {
            return Err(self.pending_error());
        }
        match &self.values[h.idx] {
            HostValue::BigInt { sign_bit, words } => {
                if words.len() > 2 {
                    return Err(Error::new(Status::InvalidArg, String::from_str(
                        "big integer does not fit in 128 bits",
                    )));
                }
                let lo = if words.len() >= 1 { words[0] } else { 0 };
                let hi = if words.len() >= 2 { words[1] } else { 0 };
                proof {
                    if words@.len() == 0 {
                        crate::bigint::lemma_words_value_empty();
                        assert(words@ =~= Seq::<u64>::empty());
                    } else if words@.len() == 1 {
                        crate::bigint::lemma_words_value_one(lo);
                        assert(words@ =~= seq![lo]);
                    } else {
                        crate::bigint::lemma_words_value_two(lo, hi);
                        assert(words@ =~= seq![lo, hi]);
                    }
                }
                let magnitude = join_u128(lo, hi);
                if *sign_bit {
                    if magnitude > 0x8000_0000_0000_0000_0000_0000_0000_0000 {
                        Err(Error::new(Status::InvalidArg, String::from_str(
                            "big integer does not fit in a signed 128-bit integer",
                        )))
                    } else if magnitude == 0x8000_0000_0000_0000_0000_0000_0000_0000 {
                        Ok(i128::MIN)
                    } else {
                        Ok(-(magnitude as i128))
                    }
                } else {
                    if magnitude > 0x7FFF_FFFF_FFFF_FFFF_FFFF_FFFF_FFFF_FFFF {
                        Err(Error::new(Status::InvalidArg, String::from_str(
                            "big integer does not fit in a signed 128-bit integer",
                        )))
                    } else {
                        Ok(magnitude as i128)
                    }
                }
            },
            _ => Err(Error::new(Status::InvalidArg, String::from_str(
                "value is not a big integer",
            ))),
        }
    }

    /// Read a big integer back as a signed 64-bit value, exactly as
    /// [`bigint_read_i64`] specifies: a single-word magnitude within the
    /// signed 64-bit range.
    pub fn get_bigint_i64(&self, h: &JsBigint) -> (r: Result<i64, Error>)
        requires
            h.idx < self@.values.len(),
        ensures
            self.blocked() ==> (r matches Err(e) && e.status == Status::PendingException),
            !self.blocked() ==> match self@.values[h.idx as int] {
                ValueView::BigInt { sign_bit, words } => match bigint_read_i64(sign_bit, words) {
                    Ok(v) => r matches Ok(x) && x == v,
                    Err(st) => r matches Err(e) && e.status == st,
                },
                _ => r matches Err(e) && e.status == Status::InvalidArg,
            },
    {
        if self.pending.is_some() {
            return Err(self.pending_error());
        }
        match &self.values[h.idx] {
            HostValue::BigInt { sign_bit, words } => {
                if words.len() > 1 {
                    return Err(Error::new(Status::InvalidArg, String::from_str(
                        "big integer does not fit in a signed 64-bit integer",
                    )));
                }
                let w = if words.len() >= 1 { words[0] } else { 0 };
                proof {
                    if words@.len() == 0 {
                        crate::bigint::lemma_words_value_empty();
                        assert(words@ =~= Seq::<u64>::empty());
                    } else {
                        crate::bigint::lemma_words_value_one(w);
                        assert(words@ =~= seq![w]);
                    }
                }
                if *sign_bit {
                    if w > 0x8000_0000_0000_0000 {
                        Err(Error::new(Status::InvalidArg, String::from_str(
                            "big integer does not fit in a signed 64-bit integer",
                        )))
                    } else {
                        Ok((-(w as i128)) as i64)
                    }
                } else {
                    if w > 0x7FFF_FFFF_FFFF_FFFF {
                        Err(Error::new(Status::InvalidArg, String::from_str(
                            "big integer does not fit in a signed 64-bit integer",
                        )))
                    } else {
                        Ok(w as i64)
                    }
                }
            },
            _ => Err(Error::new(Status::InvalidArg, String::from_str(
                "value is not a big integer",
            ))),
        }
    }
}


/// What retrieving the instance-data singleton returns: success with no
/// payload when nothing is set, the payload on a matching tag, and an
/// invalid argument on a mismatched tag or a detached payload.
pub open spec fn instance_read(inst: Option<InstanceView>, expected: u64) -> Result<
    Option<Seq<u8>>,
    Status,
> {
    match inst {
        None => Ok(None),
        Some(d) => {
            if d.tag != expected {
                Err(Status::InvalidArg)
            } else {
                match d.object {
                    Some(b) => Ok(Some(b)),
                    None => Err(Status::InvalidArg),
                }
            }
        },
    }
}

impl Env {
    /// Raise a host exception of the given class.  The message and the
    /// optional code must be valid C strings; an interior NUL is a
    /// generic failure and nothing is thrown.
    fn throw_with(&mut self, kind: ThrownKind, msg: &str, code: Option<&str>) -> (r: Result<
        (),
        Error,
    >)
        ensures
            old(self).blocked() ==> blocked_call(old(self)@, final(self)@, r),
            !old(self).blocked() ==> {
                let nul = contains_nul(msg.spec_bytes()) || (code matches Some(c)
                    && contains_nul(c.spec_bytes()));
                if nul {
                    final(self)@ == old(self)@ && (r matches Err(e) && e.status
                        == Status::GenericFailure)
                } else {
                    final(self)@ == (EnvView {
                        pending: Some(ExceptionView {
                            kind,
                            code: match code {
                                Some(c) => Some(c.spec_bytes()),
                                None => None,
                            },
                            message: msg.spec_bytes(),
                            uncaught: false,
                        }),
                        ..old(self)@
                    }) && r is Ok
                }
            },
    {
        if self.pending.is_some() {
            return Err(self.pending_error());
        }
        let msg_bytes = msg.as_bytes_vec();
        if has_nul_byte(msg_bytes.as_slice()) {
            return Err(Error::new(Status::GenericFailure, String::from_str(
                "message holds an interior NUL",
            )));
        }
        let code_bytes = match code {
            Some(c) => {
                let cb = c.as_bytes_vec();
                if has_nul_byte(cb.as_slice()) {
                    return Err(Error::new(Status::GenericFailure, String::from_str(
                        "code holds an interior NUL",
                    )));
                }
                Some(cb)
            },
            None => None,
        };
        self.pending = Some(Exception { kind, code: code_bytes, message: msg_bytes, uncaught: false });
        Ok(())
    }

    /// Throw a plain host error with the given message and optional code.
    pub fn throw_error(&mut self, msg: &str, code: Option<&str>) -> (r: Result<(), Error>)
        ensures
            old(self).blocked() ==> blocked_call(old(self)@, final(self)@, r),
            !old(self).blocked() ==> {
                let nul = contains_nul(msg.spec_bytes()) || (code matches Some(c)
                    && contains_nul(c.spec_bytes()));
                if nul {
                    final(self)@ == old(self)@ && (r matches Err(e) && e.status
                        == Status::GenericFailure)
                } else {
                    final(self)@ == (EnvView {
                        pending: Some(ExceptionView {
                            kind: ThrownKind::Plain,
                            code: match code {
                                Some(c) => Some(c.spec_bytes()),
                                None => None,
                            },
                            message: msg.spec_bytes(),
                            uncaught: false,
                        }),
                        ..old(self)@
                    }) && r is Ok
                }
            },
    {
        self.throw_with(ThrownKind::Plain, msg, code)
    }

    /// Throw a host range error with the given message and optional code.
    pub fn throw_range_error(&mut self, msg: &str, code: Option<&str>) -> (r: Result<(), Error>)
        ensures
            old(self).blocked() ==> blocked_call(old(self)@, final(self)@, r),
            !old(self).blocked() ==> {
                let nul = contains_nul(msg.spec_bytes()) || (code matches Some(c)
                    && contains_nul(c.spec_bytes()));
                if nul {
                    final(self)@ == old(self)@ && (r matches Err(e) && e.status
                        == Status::GenericFailure)
                } else {
                    final(self)@ == (EnvView {
                        pending: Some(ExceptionView {
                            kind: ThrownKind::Range,
                            code: match code {
                                Some(c) => Some(c.spec_bytes()),
                                None => None,
                            },
                            message: msg.spec_bytes(),
                            uncaught: false,
                        }),
                        ..old(self)@
                    }) && r is Ok
                }
            },
    {
        self.throw_with(ThrownKind::Range, msg, code)
    }

    /// Throw a host type error with the given message and optional code.
    pub fn throw_type_error(&mut self, msg: &str, code: Option<&str>) -> (r: Result<(), Error>)
        ensures
            old(self).blocked() ==> blocked_call(old(self)@, final(self)@, r),
            !old(self).blocked() ==> {
                let nul = contains_nul(msg.spec_bytes()) || (code matches Some(c)
                    && contains_nul(c.spec_bytes()));
                if nul {
                    final(self)@ == old(self)@ && (r matches Err(e) && e.status
                        == Status::GenericFailure)
                } else {
                    final(self)@ == (EnvView {
                        pending: Some(ExceptionView {
                            kind: ThrownKind::Type,
                            code: match code {
                                Some(c) => Some(c.spec_bytes()),
                                None => None,
                            },
                            message: msg.spec_bytes(),
                            uncaught: false,
                        }),
                        ..old(self)@
                    }) && r is Ok
                }
            },
    {
        self.throw_with(ThrownKind::Type, msg, code)
    }

    /// Observe and clear the pending host exception, if any, handing it to
    /// the caller.
    pub fn take_pending_exception(&mut self) -> (r: Option<Exception>)
        ensures
            final(self)@ == (EnvView { pending: None, ..old(self)@ }),
            match old(self)@.pending {
                Some(e) => r matches Some(x) && x@ == e,
                None => r is None,
            },
    {
        let taken = self.pending.take();
        taken
    }

    /// Record an unrecoverable error in the native module.  At the real
    /// boundary this call never returns and the process is terminated;
    /// the model records the location and message as the instance's
    /// fatality.  Both strings must be free of interior NULs, since the
    /// boundary aborts outright on a string it cannot carry.
    pub fn fatal_error(&mut self, location: &str, message: &str)
        requires
            !contains_nul(location.spec_bytes()),
            !contains_nul(message.spec_bytes()),
        ensures
            final(self)@ == (EnvView {
                fatality: Some((location.spec_bytes(), message.spec_bytes())),
                ..old(self)@
            }),
    {
        let loc = location.as_bytes_vec();
        let msg = message.as_bytes_vec();
        self.fatality = Some((loc, msg));
    }

    /// Escalate an error to an uncaught host exception: useful when an
    /// asynchronous callback throws with no way to recover.  The pending
    /// slot is overwritten unconditionally.
    pub fn fatal_exception(&mut self, err: Error)
        ensures
            final(self)@ == (EnvView {
                pending: Some(ExceptionView {
                    kind: ThrownKind::Plain,
                    code: None,
                    message: vstd::utf8::encode_utf8(err.reason@),
                    uncaught: true,
                }),
                ..old(self)@
            }),
    {
        let message = err.reason.as_str().as_bytes_vec();
        self.pending = Some(Exception {
            kind: ThrownKind::Plain,
            code: None,
            message,
            uncaught: true,
        });
    }

    /// Run a closure inside a fresh handle scope: the scope is opened
    /// before and closed after, and the closure's result is handed back
    /// unchanged.
    pub fn run_in_scope<T, F: FnOnce() -> Result<T, Error>>(&mut self, executor: F) -> (r: Result<
        T,
        Error,
    >)
        requires
            old(self)@.scope_depth < usize::MAX,
            call_requires(executor, ()),
        ensures
            old(self).blocked() ==> blocked_call(old(self)@, final(self)@, r),
            !old(self).blocked() ==> final(self)@ == old(self)@ && call_ensures(executor, (), r),
    {
        if self.pending.is_some() {
            return Err(self.pending_error());
        }
        self.scope_depth = self.scope_depth + 1;
        let result = executor();
        self.scope_depth = self.scope_depth - 1;
        result
    }

    /// Register a process-wide cleanup hook, identified by an opaque
    /// token, to run when the hosting instance tears down.  The host
    /// forbids registering the same hook twice.
    pub fn add_env_cleanup_hook(&mut self, hook: u64) -> (r: Result<CleanupEnvHook, Error>)
        requires
            !old(self)@.cleanup_hooks.contains(hook),
        ensures
            old(self).blocked() ==> blocked_call(old(self)@, final(self)@, r),
            !old(self).blocked() ==> final(self)@ == (EnvView {
                cleanup_hooks: old(self)@.cleanup_hooks.push(hook),
                ..old(self)@
            }) && (r matches Ok(h) && h.hook == hook),
    {
        if self.pending.is_some() {
            return Err(self.pending_error());
        }
        self.cleanup_hooks.push(hook);
        Ok(CleanupEnvHook { hook })
    }

    /// Remove a previously registered cleanup hook so it will not run at
    /// teardown; removing one that is not registered is an invalid
    /// argument.
    pub fn remove_env_cleanup_hook(&mut self, hook: CleanupEnvHook) -> (r: Result<(), Error>)
        ensures
            old(self).blocked() ==> blocked_call(old(self)@, final(self)@, r),
            !old(self).blocked() && !old(self)@.cleanup_hooks.contains(hook.hook) ==> final(self)@
                == old(self)@ && (r matches Err(e) && e.status == Status::InvalidArg),
            !old(self).blocked() && old(self)@.cleanup_hooks.contains(hook.hook) ==> (exists|
                i: int,
            |
                0 <= i < old(self)@.cleanup_hooks.len() && old(self)@.cleanup_hooks[i] == hook.hook
                    && final(self)@ == (EnvView {
                    cleanup_hooks: old(self)@.cleanup_hooks.remove(i),
                    ..old(self)@
                })) && r is Ok,
    {
        if self.pending.is_some() {
            return Err(self.pending_error());
        }
        let mut i: usize = 0;
        while i < self.cleanup_hooks.len()
            invariant
                0 <= i <= self.cleanup_hooks@.len(),
                forall|j: int| 0 <= j < i ==> self.cleanup_hooks@[j] != hook.hook,
                *self == *old(self),
                !old(self).blocked(),
            decreases self.cleanup_hooks@.len() - i,
        {
            if self.cleanup_hooks[i] == hook.hook {
                self.cleanup_hooks.remove(i);
                return Ok(());
            }
            i = i + 1;
        }
        Err(Error::new(Status::InvalidArg, String::from_str(
            "cleanup hook was not registered",
        )))
    }

    /// Tear down the registered cleanup hooks: every hook still registered
    /// runs exactly once, most recently registered first, and none
    /// remains registered afterwards.  The returned tokens are the hooks
    /// in the order they ran.
    pub fn run_cleanup_hooks(&mut self) -> (r: Vec<u64>)
        ensures
            final(self)@ == (EnvView { cleanup_hooks: Seq::<u64>::empty(), ..old(self)@ }),
            r@ == old(self)@.cleanup_hooks.reverse(),
    {
        let ghost orig = self.cleanup_hooks@;
        let mut out: Vec<u64> = Vec::new();
        proof {
            assert(orig.take(orig.len() - 0) =~= orig);
        }
        while self.cleanup_hooks.len() > 0
            invariant
                self.cleanup_hooks@ == orig.take(orig.len() - out@.len()),
                out@.len() <= orig.len(),
                forall|j: int| 0 <= j < out@.len() ==> out@[j] == orig[orig.len() - 1 - j],
                self.token == old(self).token,
                self.values == old(self).values,
                self.allocs == old(self).allocs,
                self.refs == old(self).refs,
                self.external_memory == old(self).external_memory,
                self.pending == old(self).pending,
                self.fatality == old(self).fatality,
                self.instance == old(self).instance,
                self.instance_finalized == old(self).instance_finalized,
                self.scope_depth == old(self).scope_depth,
                self.version_text == old(self).version_text,
                self.global == old(self).global,
                self.node_version == old(self).node_version,
            decreases self.cleanup_hooks@.len(),
        {
            proof {
                assert(self.cleanup_hooks@.len() == orig.len() - out@.len());
            }
            let popped = self.cleanup_hooks.pop();
            let h = match popped {
                Some(h) => h,
                None => vstd::pervasive::unreached(),
            };
            proof {
                assert(h == orig[orig.len() - out@.len() - 1]);
                assert(self.cleanup_hooks@ =~= orig.take(orig.len() - (out@.len() + 1)));
            }
            out.push(h);
        }
        proof {
            assert(out@.len() == orig.len());
            assert(out@ =~= orig.reverse());
            assert(self.cleanup_hooks@ =~= Seq::<u64>::empty());
        }
        out
    }

    /// Associate data with the running instance: a type-tagged payload
    /// with a finalize callback and hint.  Existing data is overwritten,
    /// and — as documented host behavior — the previous registration's
    /// finalize callback is not invoked, which the unchanged finalization
    /// log makes explicit.
    pub fn set_instance_data(
        &mut self,
        tag: u64,
        native: Vec<u8>,
        hint: u64,
        finalize_cb: u64,
    ) -> (r: Result<(), Error>)
        ensures
            old(self).blocked() ==> blocked_call(old(self)@, final(self)@, r),
            !old(self).blocked() ==> final(self)@ == (EnvView {
                instance: Some(InstanceView { tag, object: Some(native@), hint, finalize_cb }),
                ..old(self)@
            }) && r is Ok,
    {
        if self.pending.is_some() {
            return Err(self.pending_error());
        }
        self.instance = Some(InstanceData { tag, object: Some(native), hint, finalize_cb });
        Ok(())
    }

    /// Retrieve the instance data previously associated with the running
    /// instance, exactly as [`instance_read`] specifies: success with no
    /// payload when nothing is set, and a tag-checked downcast otherwise.
    pub fn get_instance_data(&self, expected_tag: u64) -> (r: Result<Option<Vec<u8>>, Error>)
        ensures
            self.blocked() ==> (r matches Err(e) && e.status == Status::PendingException),
            !self.blocked() ==> match instance_read(self@.instance, expected_tag) {
                Ok(Some(b)) => r matches Ok(o) && (o matches Some(v) && v@ == b),
                Ok(None) => r matches Ok(o) && o is None,
                Err(st) => r matches Err(e) && e.status == st,
            },
    {
        if self.pending.is_some() {
            return Err(self.pending_error());
        }
        match &self.instance {
            None => Ok(None),
            Some(d) => {
                if d.tag != expected_tag {
                    Err(Error::new(Status::InvalidArg, String::from_str(
                        "the expected type is not the type of the instance data",
                    )))
                } else {
                    match &d.object {
                        Some(b) => Ok(Some(copy_bytes(b))),
                        None => Err(Error::new(Status::InvalidArg, String::from_str(
                            "nothing is attached to the instance data",
                        ))),
                    }
                }
            },
        }
    }

    /// Tear down the instance-data singleton: the registered finalize
    /// callback is delivered exactly once with the now-detached payload
    /// and the hint supplied at registration, and the slot is emptied.
    pub fn teardown_instance_data(&mut self) -> (r: Option<(Option<Vec<u8>>, u64)>)
        ensures
            match old(self)@.instance {
                Some(d) => final(self)@ == (EnvView {
                    instance: None,
                    instance_finalized: old(self)@.instance_finalized.push(d.finalize_cb),
                    ..old(self)@
                }) && (r matches Some(p) && p.1 == d.hint && (match d.object {
                    Some(b) => p.0 matches Some(v) && v@ == b,
                    None => p.0 is None,
                })),
                None => final(self)@ == old(self)@ && r is None,
            },
    {
        match self.instance.take() {
            Some(d) => {
                self.instance_finalized.push(d.finalize_cb);
                Some((d.object, d.hint))
            },
            None => None,
        }
    }

    /// The host interface version: the version text the host reports,
    /// parsed as an unsigned 32-bit decimal number; text that is not such
    /// a number is an invalid argument.
    pub fn get_napi_version(&self) -> (r: Result<u32, Error>)
        ensures
            self.blocked() ==> (r matches Err(e) && e.status == Status::PendingException),
            !self.blocked() ==> {
                let t = self@.version_text;
                if t.len() > 0 && all_digits(t) && dec_value(t) <= u32::MAX {
                    r matches Ok(v) && v == dec_value(t)
                } else {
                    r matches Err(e) && e.status == Status::InvalidArg
                }
            },
    {
        if self.pending.is_some() {
            return Err(self.pending_error());
        }
        match parse_decimal_u32(self.version_text.as_slice()) {
            Some(v) => Ok(v),
            None => Err(Error::new(Status::InvalidArg, String::from_str(
                "the reported version is not an unsigned 32-bit decimal number",
            ))),
        }
    }
}

/// A handle to a registered cleanup hook, used to remove it again.
#[derive(Clone, Copy, Debug, PartialEq, Eq, Structural)]
pub struct CleanupEnvHook {
    pub hook: u64,
}


/// The modeled strict-equality algorithm on two heap positions: the same
/// handle is always equal to itself; otherwise booleans and numbers
/// compare by value, strings by encoding and contents (strings created
/// through different encodings are distinct host values here and are not
/// decoded for comparison), big integers by their stored sign and words
/// (padding words are not normalized away), and every other value —
/// objects, arrays, buffers, symbols, functions, externals, errors,
/// promises — by identity alone.
pub open spec fn strict_eq_view(e: EnvView, a: int, b: int) -> bool {
    a == b || match (e.values[a], e.values[b]) {
        (ValueView::Undefined, ValueView::Undefined) => true,
        (ValueView::Null, ValueView::Null) => true,
        (ValueView::Boolean { value: x }, ValueView::Boolean { value: y }) => x == y,
        (ValueView::Number { value: x }, ValueView::Number { value: y }) => x == y,
        (
            ValueView::BigInt { sign_bit: s1, words: w1 },
            ValueView::BigInt { sign_bit: s2, words: w2 },
        ) => s1 == s2 && w1 == w2,
        (ValueView::StrUtf8 { bytes: x }, ValueView::StrUtf8 { bytes: y }) => x == y,
        (ValueView::StrUtf16 { units: x }, ValueView::StrUtf16 { units: y }) => x == y,
        (ValueView::StrLatin1 { bytes: x }, ValueView::StrLatin1 { bytes: y }) => x == y,
        _ => false,
    }
}

impl Env {
    /// Strict equality of two host values, exactly as [`strict_eq_view`]
    /// specifies.
    pub fn strict_equals(&self, a: JsUnknown, b: JsUnknown) -> (r: Result<bool, Error>)
        requires
            a.idx < self@.values.len(),
            b.idx < self@.values.len(),
        ensures
            self.blocked() ==> (r matches Err(e) && e.status == Status::PendingException),
            !self.blocked() ==> (r matches Ok(v) && v == strict_eq_view(
                self@,
                a.idx as int,
                b.idx as int,
            )),
    {
        if self.pending.is_some() {
            return Err(self.pending_error());
        }
        if a.idx == b.idx {
            return Ok(true);
        }
        let eq = match (&self.values[a.idx], &self.values[b.idx]) {
            (HostValue::Undefined, HostValue::Undefined) => true,
            (HostValue::Null, HostValue::Null) => true,
            (HostValue::Boolean { value: x }, HostValue::Boolean { value: y }) => *x == *y,
            (HostValue::Number { value: x }, HostValue::Number { value: y }) => *x == *y,
            (
                HostValue::BigInt { sign_bit: s1, words: w1 },
                HostValue::BigInt { sign_bit: s2, words: w2 },
            ) => *s1 == *s2 && words_eq(w1, w2),
            (HostValue::StrUtf8 { bytes: x }, HostValue::StrUtf8 { bytes: y }) => bytes_eq(x, y),
            (HostValue::StrUtf16 { units: x }, HostValue::StrUtf16 { units: y }) => units_eq(
                x,
                y,
            ),
            (HostValue::StrLatin1 { bytes: x }, HostValue::StrLatin1 { bytes: y }) => bytes_eq(
                x,
                y,
            ),
            _ => false,
        };
        Ok(eq)
    }

    /// The host's global object: materialized once in the modeled heap on
    /// first access, and the same handle afterwards.
    pub fn get_global(&mut self) -> (r: Result<JsGlobal, Error>)
        ensures
            old(self).blocked() ==> blocked_call(old(self)@, final(self)@, r),
            !old(self).blocked() ==> match old(self)@.global {
                Some(g) => final(self)@ == old(self)@ && (r matches Ok(h) && h.idx == g),
                None => final(self)@ == (EnvView {
                    values: old(self)@.values.push(ValueView::Object { wrapped: None }),
                    global: Some(old(self)@.values.len() as int),
                    ..old(self)@
                }) && (r matches Ok(h) && fresh_idx(old(self)@, h.idx)),
            },
    {
        if self.pending.is_some() {
            return Err(self.pending_error());
        }
        match self.global {
            Some(g) => Ok(JsGlobal { idx: g }),
            None => {
                let idx = self.values.len();
                self.values.push(HostValue::Object { wrapped: None });
                self.global = Some(idx);
                Ok(JsGlobal { idx })
            },
        }
    }

    /// The running host's version report, handed back as it was given at
    /// instance creation.
    pub fn get_node_version(&self) -> (r: Result<NodeVersion, Error>)
        ensures
            self.blocked() ==> (r matches Err(e) && e.status == Status::PendingException),
            !self.blocked() ==> (r matches Ok(v) && v@ == self@.node_version),
    {
        if self.pending.is_some() {
            return Err(self.pending_error());
        }
        Ok(NodeVersion {
            major: self.node_version.major,
            minor: self.node_version.minor,
            patch: self.node_version.patch,
            release: copy_bytes(&self.node_version.release),
        })
    }
}

} // verus!
