//! Typed property access.

use vstd::pervasive::unreached;
use vstd::prelude::*;
use vstd::utf8::encode_utf8;

use crate::call::{Call, Cleanup, Finished, NodeArg, PropertyArg};
use crate::cstring;
use crate::cstring::{cstr, CString};
use crate::error;
use crate::error::{check, Error, Result};
use crate::node;
use crate::node::{Node, NodeStorage, NodeView};
use crate::sealed::Sealed;
use crate::sys;
use crate::sys::{mpv_format, mpv_handle, mpv_node, mpv_property_value, Double};

verus! {

/// The data formats a property can be accessed or observed with
/// (the counterpart of [`mpv_format`]).
#[derive(Debug, Clone, Copy, PartialEq, Eq, Structural)]
pub enum Format {
    /// No value (for observation: notify without carrying data).
    Empty,
    /// Raw string.
    String,
    /// Human-readable OSD string (read/observe only).
    OsdString,
    /// Boolean flag.
    Flag,
    /// 64-bit integer.
    Int64,
    /// Double.
    Double,
    /// Structured [`Node`](crate::node::Node).
    Node,
}

impl Default for Format {
    fn default() -> (format: Format)
        ensures
            format == Format::Empty,
    {
        Format::Empty
    }
}

impl Format {
    /// The number of the format in the client API.
    pub open spec fn code(self) -> mpv_format {
        match self {
            Format::Empty => sys::MPV_FORMAT_NONE,
            Format::String => sys::MPV_FORMAT_STRING,
            Format::OsdString => sys::MPV_FORMAT_OSD_STRING,
            Format::Flag => sys::MPV_FORMAT_FLAG,
            Format::Int64 => sys::MPV_FORMAT_INT64,
            Format::Double => sys::MPV_FORMAT_DOUBLE,
            Format::Node => sys::MPV_FORMAT_NODE,
        }
    }

    /// The number of the format in the client API.
    pub fn to_raw(self) -> (raw: mpv_format)
        ensures
            raw == self.code(),
    {
        match self {
            Format::Empty => sys::MPV_FORMAT_NONE,
            Format::String => sys::MPV_FORMAT_STRING,
            Format::OsdString => sys::MPV_FORMAT_OSD_STRING,
            Format::Flag => sys::MPV_FORMAT_FLAG,
            Format::Int64 => sys::MPV_FORMAT_INT64,
            Format::Double => sys::MPV_FORMAT_DOUBLE,
            Format::Node => sys::MPV_FORMAT_NODE,
        }
    }
}

/// Distinct formats have distinct numbers.
pub proof fn law_format_codes_distinct(a: Format, b: Format)
    ensures
        a.code() == b.code() <==> a == b,
{
}

impl Sealed for bool {

}

impl Sealed for i64 {

}

impl Sealed for Double {

}

impl Sealed for &str {

}

impl Sealed for String {

}

impl Sealed for &String {

}

impl Sealed for Node {

}

impl Sealed for &Node {

}

/// Types a property can be read as: `bool`, `i64`, [`Double`], `String`,
/// [`Node`].
pub trait GetProperty: Sealed + Sized {
    /// The [`Format`] this type maps to.
    spec fn spec_format() -> Format;

    /// Whether `out` is what libmpv writes when it reads a property in the
    /// format of this type.
    spec fn written(mem: NodeStorage, out: mpv_property_value) -> bool;

    /// Whether this is the value that `out` holds.
    spec fn shown_by(self, mem: NodeStorage, out: mpv_property_value) -> bool;

    /// What libmpv allocated for the value.
    spec fn allocated() -> Cleanup;

    /// The [`Format`] this type maps to; an asynchronous read asks for the
    /// reply in it.
    fn format() -> (format: Format)
        ensures
            format == Self::spec_format(),
    ;

    /// The outcome of a property read that returned `code` and left `out`.
    fn get_from(code: i32, mem: &NodeStorage, out: &mpv_property_value) -> (done: Finished<Self>)
        requires
            mem.wf(),
            code >= 0 ==> Self::written(*mem, *out),
        ensures
            code < 0 ==> done.result == Err::<Self, Error>(Error::of_code(code)) && done.cleanup
                == Cleanup::Nothing,
            code >= 0 ==> done.result is Ok && done.result->Ok_0.shown_by(*mem, *out)
                && done.cleanup == Self::allocated(),
    ;
}

impl GetProperty for bool {
    open spec fn spec_format() -> Format {
        Format::Flag
    }

    open spec fn written(mem: NodeStorage, out: mpv_property_value) -> bool {
        out is flag
    }

    open spec fn shown_by(self, mem: NodeStorage, out: mpv_property_value) -> bool {
        self == (out->flag_0 != 0)
    }

    open spec fn allocated() -> Cleanup {
        Cleanup::Nothing
    }

    fn format() -> (format: Format) {
        Format::Flag
    }

    fn get_from(code: i32, mem: &NodeStorage, out: &mpv_property_value) -> (done: Finished<bool>) {
        if let Err(e) = check(code) {
            return Finished { result: Err(e), cleanup: Cleanup::Nothing };
        }
        match out {
            mpv_property_value::flag(v) => Finished {
                result: Ok(*v != 0),
                cleanup: Cleanup::Nothing,
            },
            _ => unreached(),
        }
    }
}

impl GetProperty for i64 {
    open spec fn spec_format() -> Format {
        Format::Int64
    }

    open spec fn written(mem: NodeStorage, out: mpv_property_value) -> bool {
        out is int64
    }

    open spec fn shown_by(self, mem: NodeStorage, out: mpv_property_value) -> bool {
        self == out->int64_0
    }

    open spec fn allocated() -> Cleanup {
        Cleanup::Nothing
    }

    fn format() -> (format: Format) {
        Format::Int64
    }

    fn get_from(code: i32, mem: &NodeStorage, out: &mpv_property_value) -> (done: Finished<i64>) {
        if let Err(e) = check(code) {
            return Finished { result: Err(e), cleanup: Cleanup::Nothing };
        }
        match out {
            mpv_property_value::int64(v) => Finished { result: Ok(*v), cleanup: Cleanup::Nothing },
            _ => unreached(),
        }
    }
}

impl GetProperty for Double {
    open spec fn spec_format() -> Format {
        Format::Double
    }

    open spec fn written(mem: NodeStorage, out: mpv_property_value) -> bool {
        out is double_
    }

    open spec fn shown_by(self, mem: NodeStorage, out: mpv_property_value) -> bool {
        self == out->double__0
    }

    open spec fn allocated() -> Cleanup {
        Cleanup::Nothing
    }

    fn format() -> (format: Format) {
        Format::Double
    }

    fn get_from(code: i32, mem: &NodeStorage, out: &mpv_property_value) -> (done: Finished<
        Double,
    >) {
        if let Err(e) = check(code) {
            return Finished { result: Err(e), cleanup: Cleanup::Nothing };
        }
        match out {
            mpv_property_value::double_(v) => Finished {
                result: Ok(*v),
                cleanup: Cleanup::Nothing,
            },
            _ => unreached(),
        }
    }
}

impl GetProperty for String {
    open spec fn spec_format() -> Format {
        Format::String
    }

    open spec fn written(mem: NodeStorage, out: mpv_property_value) -> bool {
        out matches mpv_property_value::string(Some(p)) && p < mem.strings().len()
    }

    open spec fn shown_by(self, mem: NodeStorage, out: mpv_property_value) -> bool {
        self@ == mem.text(out->string_0->0)
    }

    open spec fn allocated() -> Cleanup {
        Cleanup::Free
    }

    fn format() -> (format: Format) {
        Format::String
    }

    fn get_from(code: i32, mem: &NodeStorage, out: &mpv_property_value) -> (done: Finished<
        String,
    >) {
        if let Err(e) = check(code) {
            return Finished { result: Err(e), cleanup: Cleanup::Nothing };
        }
        match out {
            mpv_property_value::string(Some(p)) => Finished {
                result: Ok(mem.string_at(*p)),
                cleanup: Cleanup::Free,
            },
            _ => unreached(),
        }
    }
}

impl GetProperty for Node {
    open spec fn spec_format() -> Format {
        Format::Node
    }

    open spec fn written(mem: NodeStorage, out: mpv_property_value) -> bool {
        out matches mpv_property_value::node(raw) && mem.valid(raw)
    }

    open spec fn shown_by(self, mem: NodeStorage, out: mpv_property_value) -> bool {
        self@ == mem.read(out->node_0)
    }

    open spec fn allocated() -> Cleanup {
        Cleanup::FreeNodeContents
    }

    fn format() -> (format: Format) {
        Format::Node
    }

    fn get_from(code: i32, mem: &NodeStorage, out: &mpv_property_value) -> (done: Finished<Node>) {
        if let Err(e) = check(code) {
            return Finished { result: Err(e), cleanup: Cleanup::Nothing };
        }
        match out {
            mpv_property_value::node(raw) => Finished {
                result: Ok(Node::from_raw(mem, raw)),
                cleanup: Cleanup::FreeNodeContents,
            },
            _ => unreached(),
        }
    }
}

/// Types a property can be written from: `bool`, `i64`, [`Double`], `&str`,
/// `String`, [`Node`] (and references).
pub trait SetProperty: Sealed {
    /// Whether the value holds a string that cannot be passed to libmpv.
    spec fn refused(&self) -> bool;

    /// Whether `call` sets the property with the C name `name` to this value
    /// through the client handle `ctx`.
    spec fn set_by(&self, call: Call, ctx: mpv_handle, name: Seq<u8>) -> bool;

    /// The call that sets the property `name` to this value.
    fn set_on(&self, ctx: mpv_handle, name: CString) -> (r: Result<Call>)
        ensures
            r is Err <==> self.refused(),
            r matches Err(e) ==> e == Error::InteriorNul,
            r matches Ok(call) ==> self.set_by(call, ctx, name@),
    ;
}

/// Whether `call` writes `data` in the format `format` to the property with
/// the C name `name` through the client handle `ctx`.
pub open spec fn writes(
    call: Call,
    ctx: mpv_handle,
    name: Seq<u8>,
    format: Format,
    data: PropertyArg,
) -> bool {
    call matches Call::SetProperty { ctx: c, name: n, format: f, data: d } && c == ctx && n@ == name
        && f == format.code() && d == data
}

/// Whether `call` writes the text `s` to the property with the C name `name`
/// through the client handle `ctx`.
pub open spec fn writes_string(call: Call, ctx: mpv_handle, name: Seq<u8>, s: Seq<char>) -> bool {
    call matches Call::SetPropertyString { ctx: c, name: n, data: d } && c == ctx && n@ == name && d@
        == encode_utf8(s)
}

/// Whether `call` writes the value `v` to the property with the C name `name`
/// through the client handle `ctx`.
pub open spec fn writes_node(call: Call, ctx: mpv_handle, name: Seq<u8>, v: NodeView) -> bool {
    call matches Call::SetProperty { ctx: c, name: n, format: f, data: PropertyArg::Node(d) } && c
        == ctx && n@ == name && f == Format::Node.code() && d.encodes(v)
}

impl SetProperty for bool {
    open spec fn refused(&self) -> bool {
        false
    }

    open spec fn set_by(&self, call: Call, ctx: mpv_handle, name: Seq<u8>) -> bool {
        writes(
            call,
            ctx,
            name,
            Format::Flag,
            PropertyArg::Flag(
                if *self {
                    1
                } else {
                    0
                },
            ),
        )
    }

    fn set_on(&self, ctx: mpv_handle, name: CString) -> (r: Result<Call>) {
        let v: i32 = if *self {
            1
        } else {
            0
        };
        Ok(
            Call::SetProperty {
                ctx,
                name,
                format: sys::MPV_FORMAT_FLAG,
                data: PropertyArg::Flag(v),
            },
        )
    }
}

impl SetProperty for i64 {
    open spec fn refused(&self) -> bool {
        false
    }

    open spec fn set_by(&self, call: Call, ctx: mpv_handle, name: Seq<u8>) -> bool {
        writes(call, ctx, name, Format::Int64, PropertyArg::Int64(*self))
    }

    fn set_on(&self, ctx: mpv_handle, name: CString) -> (r: Result<Call>) {
        Ok(
            Call::SetProperty {
                ctx,
                name,
                format: sys::MPV_FORMAT_INT64,
                data: PropertyArg::Int64(*self),
            },
        )
    }
}

impl SetProperty for Double {
    open spec fn refused(&self) -> bool {
        false
    }

    open spec fn set_by(&self, call: Call, ctx: mpv_handle, name: Seq<u8>) -> bool {
        writes(call, ctx, name, Format::Double, PropertyArg::Double(*self))
    }

    fn set_on(&self, ctx: mpv_handle, name: CString) -> (r: Result<Call>) {
        Ok(
            Call::SetProperty {
                ctx,
                name,
                format: sys::MPV_FORMAT_DOUBLE,
                data: PropertyArg::Double(*self),
            },
        )
    }
}

impl SetProperty for &str {
    open spec fn refused(&self) -> bool {
        cstring::has_nul(self@)
    }

    open spec fn set_by(&self, call: Call, ctx: mpv_handle, name: Seq<u8>) -> bool {
        writes_string(call, ctx, name, self@)
    }

    fn set_on(&self, ctx: mpv_handle, name: CString) -> (r: Result<Call>) {
        match cstr(self) {
            Ok(data) => Ok(Call::SetPropertyString { ctx, name, data }),
            Err(e) => Err(e),
        }
    }
}

impl SetProperty for String {
    open spec fn refused(&self) -> bool {
        cstring::has_nul(self@)
    }

    open spec fn set_by(&self, call: Call, ctx: mpv_handle, name: Seq<u8>) -> bool {
        writes_string(call, ctx, name, self@)
    }

    fn set_on(&self, ctx: mpv_handle, name: CString) -> (r: Result<Call>) {
        self.as_str().set_on(ctx, name)
    }
}

impl SetProperty for &String {
    open spec fn refused(&self) -> bool {
        cstring::has_nul(self@)
    }

    open spec fn set_by(&self, call: Call, ctx: mpv_handle, name: Seq<u8>) -> bool {
        writes_string(call, ctx, name, self@)
    }

    fn set_on(&self, ctx: mpv_handle, name: CString) -> (r: Result<Call>) {
        self.as_str().set_on(ctx, name)
    }
}

impl SetProperty for Node {
    open spec fn refused(&self) -> bool {
        self@.has_interior_nul()
    }

    open spec fn set_by(&self, call: Call, ctx: mpv_handle, name: Seq<u8>) -> bool {
        writes_node(call, ctx, name, self@)
    }

    fn set_on(&self, ctx: mpv_handle, name: CString) -> (r: Result<Call>) {
        match NodeArg::new(self) {
            Ok(arg) => Ok(
                Call::SetProperty {
                    ctx,
                    name,
                    format: sys::MPV_FORMAT_NODE,
                    data: PropertyArg::Node(arg),
                },
            ),
            Err(e) => Err(e),
        }
    }
}

impl SetProperty for &Node {
    open spec fn refused(&self) -> bool {
        self@.has_interior_nul()
    }

    open spec fn set_by(&self, call: Call, ctx: mpv_handle, name: Seq<u8>) -> bool {
        writes_node(call, ctx, name, self@)
    }

    fn set_on(&self, ctx: mpv_handle, name: CString) -> (r: Result<Call>) {
        (*self).set_on(ctx, name)
    }
}

/// Whether a read that finds in memory what `arg` wrote leaves `out`; the
/// strings of `arg` and of `out` are those of `mem`.
pub open spec fn reads_back(mem: NodeStorage, arg: PropertyArg, out: mpv_property_value) -> bool {
    match arg {
        PropertyArg::Flag(v) => out == mpv_property_value::flag(v),
        PropertyArg::Int64(v) => out == mpv_property_value::int64(v),
        PropertyArg::Double(v) => out == mpv_property_value::double_(v),
        PropertyArg::Node(arg) => mem == arg.storage && out == mpv_property_value::node(arg.root),
    }
}

/// What a flag is set to, a read in the format of a flag shows.
pub proof fn law_flag_round_trip(
    v: bool,
    call: Call,
    ctx: mpv_handle,
    name: Seq<u8>,
    mem: NodeStorage,
    out: mpv_property_value,
)
    requires
        v.set_by(call, ctx, name),
        reads_back(mem, call->SetProperty_data, out),
    ensures
        call->SetProperty_format == bool::spec_format().code(),
        bool::written(mem, out),
        forall|w: bool| w.shown_by(mem, out) <==> w == v,
{
}

/// What an integer is set to, a read in the format of an integer shows.
pub proof fn law_int64_round_trip(
    v: i64,
    call: Call,
    ctx: mpv_handle,
    name: Seq<u8>,
    mem: NodeStorage,
    out: mpv_property_value,
)
    requires
        v.set_by(call, ctx, name),
        reads_back(mem, call->SetProperty_data, out),
    ensures
        call->SetProperty_format == i64::spec_format().code(),
        i64::written(mem, out),
        forall|w: i64| w.shown_by(mem, out) <==> w == v,
{
}

/// What a double is set to, a read in the format of a double shows, bit for
/// bit.
pub proof fn law_double_round_trip(
    v: Double,
    call: Call,
    ctx: mpv_handle,
    name: Seq<u8>,
    mem: NodeStorage,
    out: mpv_property_value,
)
    requires
        v.set_by(call, ctx, name),
        reads_back(mem, call->SetProperty_data, out),
    ensures
        call->SetProperty_format == Double::spec_format().code(),
        Double::written(mem, out),
        forall|w: Double| w.shown_by(mem, out) <==> w == v,
{
}

/// What a string is set to, a read in the format of a string shows, where
/// the read finds the bytes that were written.
pub proof fn law_string_round_trip(
    v: String,
    call: Call,
    ctx: mpv_handle,
    name: Seq<u8>,
    mem: NodeStorage,
    p: usize,
)
    requires
        !v.refused(),
        v.set_by(call, ctx, name),
        p < mem.strings().len(),
        mem.strings()[p as int]@ == call->SetPropertyString_data@,
    ensures
        String::written(mem, mpv_property_value::string(Some(p))),
        forall|w: String|
            w.shown_by(mem, mpv_property_value::string(Some(p))) <==> w@ == v@,
{
    cstring::law_c_string_round_trip(v@);
}

/// What a structured value is set to, a read in the format of a node shows,
/// if the length of its arrays and maps can be written in an `int`.
pub proof fn law_structured_round_trip(
    v: Node,
    call: Call,
    ctx: mpv_handle,
    name: Seq<u8>,
    mem: NodeStorage,
    out: mpv_property_value,
)
    requires
        !v.refused(),
        v@.counts_fit(),
        v.set_by(call, ctx, name),
        reads_back(mem, call->SetProperty_data, out),
    ensures
        call->SetProperty_format == Node::spec_format().code(),
        mem.wf(),
        Node::written(mem, out),
        forall|w: Node| w.shown_by(mem, out) <==> w@ == v@,
{
    node::law_node_round_trip(mem, out->node_0, v@);
}

/// The number of each format in the client API.
pub proof fn law_formats_by_number(format: Format, raw: mpv_format, none: Format)
    ensures
        call_ensures(Format::to_raw, (format,), raw) ==> raw == format.code(),
        call_ensures(<Format as Default>::default, (), none) ==> none.code() == 0,
        format is Empty <==> format.code() == 0,
        format is String <==> format.code() == 1,
        format is OsdString <==> format.code() == 2,
        format is Flag <==> format.code() == 3,
        format is Int64 <==> format.code() == 4,
        format is Double <==> format.code() == 5,
        format is Node <==> format.code() == 6,
{
}

/// Each type is read in the format of its own, synchronously and not.
pub proof fn law_types_are_read_in_their_format(format: Format)
    ensures
        bool::spec_format().code() == 3,
        i64::spec_format().code() == 4,
        Double::spec_format().code() == 5,
        String::spec_format().code() == 1,
        Node::spec_format().code() == 6,
        call_ensures(<bool as GetProperty>::format, (), format) ==> format.code() == 3,
        call_ensures(<i64 as GetProperty>::format, (), format) ==> format.code() == 4,
        call_ensures(<Double as GetProperty>::format, (), format) ==> format.code() == 5,
        call_ensures(<String as GetProperty>::format, (), format) ==> format.code() == 1,
        call_ensures(<Node as GetProperty>::format, (), format) ==> format.code() == 6,
{
}

/// A read of a flag gives whether what libmpv wrote is not `0`.
pub proof fn law_flag_is_read_as_written(
    code: i32,
    mem: &NodeStorage,
    n: i32,
    out: &mpv_property_value,
    done: Finished<bool>,
)
    requires
        *out == mpv_property_value::flag(n),
        mem.wf(),
    ensures
        call_requires(<bool as GetProperty>::get_from, (code, mem, out)),
        call_ensures(<bool as GetProperty>::get_from, (code, mem, out), done) ==> {
            &&& done.cleanup is Nothing
            &&& code >= 0 ==> (done.result matches Ok(v) && (v <==> n != 0))
            &&& code < 0 ==> (done.result matches Err(e) && e.code() == Some(code))
        },
        forall|v: bool| #[trigger] v.shown_by(*mem, *out) <==> v == (n != 0),
{
    error::law_code_round_trip(code);
}

/// A read of an integer gives the integer that libmpv wrote, whichever it is.
pub proof fn law_int64_is_read_as_written(
    code: i32,
    mem: &NodeStorage,
    n: i64,
    out: &mpv_property_value,
    done: Finished<i64>,
)
    requires
        *out == mpv_property_value::int64(n),
        mem.wf(),
    ensures
        call_requires(<i64 as GetProperty>::get_from, (code, mem, out)),
        call_ensures(<i64 as GetProperty>::get_from, (code, mem, out), done) ==> {
            &&& done.cleanup is Nothing
            &&& code >= 0 ==> (done.result matches Ok(v) && v == n)
            &&& code < 0 ==> (done.result matches Err(e) && e.code() == Some(code))
        },
        forall|v: i64| #[trigger] v.shown_by(*mem, *out) <==> v == n,
{
    error::law_code_round_trip(code);
}

/// A read of a double gives the double that libmpv wrote, bit for bit.
pub proof fn law_double_is_read_as_written(
    code: i32,
    mem: &NodeStorage,
    d: Double,
    out: &mpv_property_value,
    done: Finished<Double>,
)
    requires
        *out == mpv_property_value::double_(d),
        mem.wf(),
    ensures
        call_requires(<Double as GetProperty>::get_from, (code, mem, out)),
        call_ensures(<Double as GetProperty>::get_from, (code, mem, out), done) ==> {
            &&& done.cleanup is Nothing
            &&& code >= 0 ==> (done.result matches Ok(v) && v.bits == d.bits)
            &&& code < 0 ==> (done.result matches Err(e) && e.code() == Some(code))
        },
        forall|v: Double| #[trigger] v.shown_by(*mem, *out) <==> v.bits == d.bits,
{
    error::law_code_round_trip(code);
}

/// A read of a string gives the text whose C string libmpv wrote, and for other
/// bytes what the library reads for that string; the memory of the string is to
/// be freed, if there is one.
pub proof fn law_string_is_read_as_written(
    code: i32,
    mem: &NodeStorage,
    p: usize,
    text: Seq<char>,
    out: &mpv_property_value,
    done: Finished<String>,
)
    requires
        *out == mpv_property_value::string(Some(p)),
        p < mem.strings().len(),
        mem.wf(),
    ensures
        call_requires(<String as GetProperty>::get_from, (code, mem, out)),
        call_ensures(<String as GetProperty>::get_from, (code, mem, out), done) ==> {
            &&& code >= 0 ==> done.cleanup is Free && (done.result matches Ok(s) && s@
                == cstring::lossy_text(mem.strings()[p as int]@) && (!text.contains('\0')
                && mem.strings()[p as int]@ == encode_utf8(text) ==> s@ == text))
            &&& code < 0 ==> done.cleanup is Nothing && (done.result matches Err(e) && e.code()
                == Some(code))
        },
{
    error::law_code_round_trip(code);
    if !text.contains('\0') {
        cstring::law_c_string_round_trip(text);
    }
}

/// A read of a node gives the value that the node reads as; what the node
/// refers to is to be freed, if there is a node.
pub proof fn law_node_is_read_as_written(
    code: i32,
    mem: &NodeStorage,
    raw: mpv_node,
    out: &mpv_property_value,
    done: Finished<Node>,
)
    requires
        *out == mpv_property_value::node(raw),
        mem.wf(),
        mem.valid(raw),
    ensures
        call_requires(<Node as GetProperty>::get_from, (code, mem, out)),
        call_ensures(<Node as GetProperty>::get_from, (code, mem, out), done) ==> {
            &&& code >= 0 ==> done.cleanup is FreeNodeContents && (done.result matches Ok(node)
                && node@ == mem.read(raw))
            &&& code < 0 ==> done.cleanup is Nothing && (done.result matches Err(e) && e.code()
                == Some(code))
        },
{
    error::law_code_round_trip(code);
}

/// Whatever it left in its out-argument, a read that failed needs nothing
/// there, and gives the error of its status.
pub proof fn law_failed_read<T: GetProperty>(
    code: i32,
    mem: &NodeStorage,
    out: &mpv_property_value,
    done: Finished<T>,
)
    requires
        code < 0,
        mem.wf(),
    ensures
        call_requires(T::get_from, (code, mem, out)),
        call_ensures(T::get_from, (code, mem, out), done) ==> done.cleanup is Nothing && (
        done.result matches Err(e) && e.code() == Some(code)),
{
    error::law_code_round_trip(code);
}

/// Setting a scalar writes it as it is, in its own format, to the property and
/// through the handle that were named: a flag as `1` or `0`, an integer as
/// itself, a double with its bits. It is never refused.
pub proof fn law_scalar_is_set_as_it_is(
    flag: &bool,
    n: &i64,
    d: &Double,
    ctx: mpv_handle,
    name: CString,
    r: Result<Call>,
)
    ensures
        call_ensures(<bool as SetProperty>::set_on, (flag, ctx, name), r) ==> (r matches Ok(
            Call::SetProperty { ctx: c, name: to, format, data },
        ) && c == ctx && to@ == name@ && format == 3 && (data matches PropertyArg::Flag(v) && (v
            == 1 <==> *flag) && (v == 0 <==> !*flag))),
        call_ensures(<i64 as SetProperty>::set_on, (n, ctx, name), r) ==> (r matches Ok(
            Call::SetProperty { ctx: c, name: to, format, data },
        ) && c == ctx && to@ == name@ && format == 4 && (data matches PropertyArg::Int64(v) && v
            == *n)),
        call_ensures(<Double as SetProperty>::set_on, (d, ctx, name), r) ==> (r matches Ok(
            Call::SetProperty { ctx: c, name: to, format, data },
        ) && c == ctx && to@ == name@ && format == 5 && (data matches PropertyArg::Double(v)
            && v.bits == d.bits)),
        !flag.refused() && !n.refused() && !d.refused(),
{
}

/// Setting a text writes the bytes of that text to the property and through the
/// handle that were named, from each of the types that hold a text; it is
/// refused exactly if the text holds a NUL.
pub proof fn law_text_is_set_as_its_bytes(
    s: &str,
    string: String,
    ctx: mpv_handle,
    name: CString,
    r: Result<Call>,
)
    requires
        string@ == s@,
        call_ensures(<&str as SetProperty>::set_on, (&s, ctx, name), r) || call_ensures(
            <String as SetProperty>::set_on,
            (&string, ctx, name),
            r,
        ) || call_ensures(<&String as SetProperty>::set_on, (&&string, ctx, name), r),
    ensures
        match r {
            Ok(call) => !s@.contains('\0') && (call matches Call::SetPropertyString {
                ctx: c,
                name: to,
                data,
            } && c == ctx && to@ == name@ && data@ == encode_utf8(s@)),
            Err(e) => s@.contains('\0') && e == Error::InteriorNul,
        },
        s.refused() <==> s@.contains('\0'),
        string.refused() <==> s@.contains('\0'),
        (&string).refused() <==> s@.contains('\0'),
{
}

/// Setting a node writes a valid representation of its value, as a node, to the
/// property and through the handle that were named; it is refused exactly if a
/// string or key of it holds a NUL.
pub proof fn law_node_is_set_as_its_value(
    node: &Node,
    ctx: mpv_handle,
    name: CString,
    r: Result<Call>,
)
    requires
        call_ensures(<Node as SetProperty>::set_on, (node, ctx, name), r) || call_ensures(
            <&Node as SetProperty>::set_on,
            (&node, ctx, name),
            r,
        ),
    ensures
        match r {
            Ok(call) => !node@.has_interior_nul() && (call matches Call::SetProperty {
                ctx: c,
                name: to,
                format,
                data,
            } && c == ctx && to@ == name@ && format == 6 && (data matches PropertyArg::Node(arg)
                && arg.storage.wf() && arg.storage.valid(arg.root) && arg.storage.encodes(
                arg.root,
                node@,
            ))),
            Err(e) => node@.has_interior_nul() && e == Error::InteriorNul,
        },
        node.refused() <==> node@.has_interior_nul(),
        (&node).refused() <==> node@.has_interior_nul(),
{
}

/// Which calls set a property to a value, for each type of value.
pub proof fn law_set_by_means_the_value_is_written(call: Call, ctx: mpv_handle, name: Seq<u8>)
    ensures
        forall|v: bool| #[trigger]
            v.set_by(call, ctx, name) ==> (call matches Call::SetProperty {
                ctx: c,
                name: to,
                format,
                data,
            } && c == ctx && to@ == name && format == 3 && (v ==> data == PropertyArg::Flag(1)) && (
            !v ==> data == PropertyArg::Flag(0))),
        forall|v: i64| #[trigger]
            v.set_by(call, ctx, name) ==> (call matches Call::SetProperty {
                ctx: c,
                name: to,
                format,
                data,
            } && c == ctx && to@ == name && format == 4 && data == PropertyArg::Int64(v)),
        forall|v: Double| #[trigger]
            v.set_by(call, ctx, name) ==> (call matches Call::SetProperty {
                ctx: c,
                name: to,
                format,
                data,
            } && c == ctx && to@ == name && format == 5 && data == PropertyArg::Double(v)),
        forall|v: &str| #[trigger]
            v.set_by(call, ctx, name) ==> (call matches Call::SetPropertyString {
                ctx: c,
                name: to,
                data,
            } && c == ctx && to@ == name && data@ == encode_utf8(v@)),
        forall|v: String| #[trigger]
            v.set_by(call, ctx, name) ==> (call matches Call::SetPropertyString {
                ctx: c,
                name: to,
                data,
            } && c == ctx && to@ == name && data@ == encode_utf8(v@)),
        forall|v: Node| #[trigger]
            v.set_by(call, ctx, name) ==> (call matches Call::SetProperty {
                ctx: c,
                name: to,
                format,
                data: PropertyArg::Node(arg),
            } && c == ctx && to@ == name && format == 6 && arg.storage.wf() && arg.storage.valid(
                arg.root,
            ) && arg.storage.encodes(arg.root, v@)),
{
}

} // verus!
