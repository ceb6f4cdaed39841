use vstd::prelude::*;
use crate::bigint::{digit_char, int_to_decimal, nat_to_decimal};
use crate::object::{
    class_name, heap_ok, obj_ok, CodeObject, PyContext, PyObject, PyObjectPayload, PyObjectRef,
};

verus! {

/// The text of a decimal digit.
fn digit_string(d: u8) -> (r: String)
    requires
        d < 10,
    ensures
        r@ == seq![digit_char(d as nat)],
{
    proof {
        reveal_strlit("0");
        reveal_strlit("1");
        reveal_strlit("2");
        reveal_strlit("3");
        reveal_strlit("4");
        reveal_strlit("5");
        reveal_strlit("6");
        reveal_strlit("7");
        reveal_strlit("8");
        reveal_strlit("9");
    }
    let s = match d {
        0 => "0",
        1 => "1",
        2 => "2",
        3 => "3",
        4 => "4",
        5 => "5",
        6 => "6",
        7 => "7",
        8 => "8",
        _ => "9",
    };
    String::from_str(s)
}

/// The decimal representation of a byte.
pub fn u8_decimal(n: u8) -> (r: String)
    ensures
        r@ == nat_to_decimal(n as nat),
{
    proof {
        reveal_with_fuel(nat_to_decimal, 3);
    }
    if n < 10 {
        digit_string(n)
    } else if n < 100 {
        let mut s = digit_string(n / 10);
        let last = digit_string(n % 10);
        s.append(last.as_str());
        s
    } else {
        let mut s = digit_string(n / 100);
        let mid = digit_string((n / 10) % 10);
        let last = digit_string(n % 10);
        s.append(mid.as_str());
        s.append(last.as_str());
        proof {
            assert((n / 10) as nat / 10 == n / 100);
            assert((n / 10) as nat % 10 == (n / 10) % 10);
        }
        s
    }
}

/// The decimal representation of a `usize`.
pub fn usize_decimal(n: usize) -> (r: String)
    ensures
        r@ == nat_to_decimal(n as nat),
    decreases n,
{
    if n < 10 {
        digit_string(n as u8)
    } else {
        let mut s = usize_decimal(n / 10);
        let last = digit_string((n % 10) as u8);
        s.append(last.as_str());
        s
    }
}

/// The bytes in decimal, separated by `, `.
pub open spec fn bytes_list_text(b: Seq<u8>) -> Seq<char>
    decreases b.len(),
{
    if b.len() == 0 {
        Seq::empty()
    } else if b.len() == 1 {
        nat_to_decimal(b[0] as nat)
    } else {
        bytes_list_text(b.drop_last()) + ", "@ + nat_to_decimal(b.last() as nat)
    }
}

/// The debug text of a byte buffer held in a `RefCell`.
pub open spec fn bytes_debug_text(b: Seq<u8>) -> Seq<char> {
    "RefCell { value: ["@ + bytes_list_text(b) + "] }"@
}

/// The debug text of a byte buffer held in a `RefCell`, as the bytes of a
/// `bytes` object print.
pub fn bytes_debug(b: &Vec<u8>) -> (r: String)
    ensures
        r@ == bytes_debug_text(b@),
{
    let mut s = String::from_str("RefCell { value: [");
    let ghost prefix = s@;
    let mut i: usize = 0;
    while i < b.len()
        invariant
            i <= b@.len(),
            s@ == prefix + bytes_list_text(b@.take(i as int)),
        decreases b@.len() - i,
    {
        proof {
            assert(b@.take(i + 1).drop_last() =~= b@.take(i as int));
            assert(b@.take(i + 1).last() == b@[i as int]);
        }
        if i > 0 {
            s.append(", ");
        }
        let d = u8_decimal(b[i]);
        s.append(d.as_str());
        proof {
            if i == 0 {
                assert(b@.take(0) =~= Seq::<u8>::empty());
                assert(b@.take(1) =~= seq![b@[0]]);
                assert(s@ =~= prefix + bytes_list_text(b@.take(1)));
            } else {
                assert(s@ =~= prefix + bytes_list_text(b@.take(i + 1)));
            }
        }
        i = i + 1;
    }
    proof {
        assert(b@.take(i as int) =~= b@);
    }
    s.append("] }");
    s
}

/// The text of `{:?}` applied to a string: the string in double quotes,
/// with its special characters escaped.
pub uninterp spec fn str_debug_text(s: Seq<char>) -> Seq<char>;

/// Formats a string with `format!("{:?}", ..)`, the `Debug` impl of `str`
/// in std. Claims only that the result is a function of the text.
#[verifier::external_body]
fn str_debug(s: &String) -> (r: String)
    ensures
        r@ == str_debug_text(s@),
{
    format!("{:?}", s)
}

/// The debug text of a code object: its name, its file as a quoted
/// string and its first line.
pub open spec fn code_debug_text(c: CodeObject) -> Seq<char> {
    "<code object "@ + c.obj_name@ + " at ??? file "@ + str_debug_text(c.source_path@)
        + ", line "@ + nat_to_decimal(c.first_line_number as nat) + ">"@
}

/// The debug text of a code object.
fn code_debug(c: &CodeObject) -> (r: String)
    ensures
        r@ == code_debug_text(*c),
{
    let mut r = String::from_str("<code object ");
    r.append(c.obj_name.as_str());
    r.append(" at ??? file ");
    let path = str_debug(&c.source_path);
    r.append(path.as_str());
    r.append(", line ");
    let line = usize_decimal(c.first_line_number);
    r.append(line.as_str());
    r.append(">");
    r
}

/// A piece of the debug description of an object. Floats are left for the
/// caller to format from their bits.
pub enum DebugPart {
    Text(String),
    /// A `float`, by its IEEE-754 bits.
    Float(u64),
    /// A `complex`, by the IEEE-754 bits of its parts.
    Complex(u64, u64),
}

/// What a piece of a debug description stands for.
pub ghost enum DebugPiece {
    Text(Seq<char>),
    Float(u64),
    Complex(u64, u64),
}

/// What the pieces of a debug description stand for.
pub open spec fn pieces(parts: Seq<DebugPart>) -> Seq<DebugPiece> {
    parts.map_values(
        |p: DebugPart|
            match p {
                DebugPart::Text(s) => DebugPiece::Text(s@),
                DebugPart::Float(b) => DebugPiece::Float(b),
                DebugPart::Complex(re, im) => DebugPiece::Complex(re, im),
            },
    )
}

/// A text piece.
pub open spec fn text(s: Seq<char>) -> Seq<DebugPiece> {
    seq![DebugPiece::Text(s)]
}

/// The debug description of the payload of the object at position `i`:
/// the name of its kind and, for some kinds, its value; a bound method or a
/// memory view describes the (earlier) objects that it refers to.
pub open spec fn payload_pieces(h: Seq<PyObject>, i: int) -> Seq<DebugPiece>
    decreases i,
{
    if !(0 <= i < h.len()) {
        Seq::empty()
    } else {
        match h[i].payload {
            PyObjectPayload::Integer { value } => text("int "@ + int_to_decimal(value@)),
            PyObjectPayload::Float { value } => text("float "@).push(DebugPiece::Float(value)),
            PyObjectPayload::Complex { re, im } => text("complex "@).push(
                DebugPiece::Complex(re, im),
            ),
            PyObjectPayload::Bytes { value } => text(
                "bytes/bytearray "@ + bytes_debug_text(value@),
            ),
            PyObjectPayload::MemoryView { obj } => if obj.id < i {
                text("bytes/bytearray [PyObj "@) + payload_pieces(h, obj.id as int) + text("]"@)
            } else {
                Seq::empty()
            },
            PyObjectPayload::Sequence { .. } => text("list or tuple"@),
            PyObjectPayload::Dict { .. } => text("dict"@),
            PyObjectPayload::PySet { .. } => text("set"@),
            PyObjectPayload::WeakRef { .. } => text("weakref"@),
            PyObjectPayload::Iterator { .. } => text("iterator"@),
            PyObjectPayload::EnumerateIterator { .. } => text("enumerate"@),
            PyObjectPayload::FilterIterator { .. } => text("filter"@),
            PyObjectPayload::MapIterator { .. } => text("map"@),
            PyObjectPayload::ZipIterator { .. } => text("zip"@),
            PyObjectPayload::Slice { .. } => text("slice"@),
            PyObjectPayload::Code { code } => text("code: "@ + code_debug_text(code)),
            PyObjectPayload::Function { .. } => text("function"@),
            PyObjectPayload::Generator { .. } => text("generator"@),
            PyObjectPayload::BoundMethod { function, object } => if function.id < i && object.id
                < i {
                text("bound-method: [PyObj "@) + payload_pieces(h, function.id as int) + text(
                    "] of [PyObj "@,
                ) + payload_pieces(h, object.id as int) + text("]"@)
            } else {
                Seq::empty()
            },
            PyObjectPayload::Module { .. } => text("module"@),
            PyObjectPayload::PyNone => text("None"@),
            PyObjectPayload::NotImplemented => text("NotImplemented"@),
            PyObjectPayload::Class { name, .. } => text("class "@ + str_debug_text(name@)),
            PyObjectPayload::Instance { .. } => text("instance"@),
            PyObjectPayload::RustFunction { .. } => text("rust function"@),
            PyObjectPayload::AnyRustValue { .. } => text("some rust value"@),
        }
    }
}

/// Appends a text piece.
fn push_text(out: &mut Vec<DebugPart>, s: String)
    ensures
        pieces(final(out)@) == pieces(old(out)@) + text(s@),
{
    let ghost s_view = s@;
    out.push(DebugPart::Text(s));
    proof {
        assert(pieces(out@) =~= pieces(old(out)@) + text(s_view));
    }
}

/// Appends the text of a string literal as a piece.
fn push_str(out: &mut Vec<DebugPart>, s: &str)
    ensures
        pieces(final(out)@) == pieces(old(out)@) + text(s@),
{
    push_text(out, String::from_str(s));
}

/// Appends the debug description of the payload of the object `r`.
fn push_payload_pieces(ctx: &PyContext, r: PyObjectRef, out: &mut Vec<DebugPart>)
    requires
        ctx.wf(),
        ctx.valid(r),
    ensures
        pieces(final(out)@) == pieces(old(out)@) + payload_pieces(ctx.heap(), r.id as int),
    decreases r.id,
{
    let ghost h = ctx.heap();
    let ghost i = r.id as int;
    let ghost p0 = pieces(out@);
    proof {
        assert(obj_ok(h, i));
    }
    match &ctx.objects[r.id].payload {
        PyObjectPayload::Integer { value } => {
            let mut s = String::from_str("int ");
            let d = value.to_decimal_string();
            s.append(d.as_str());
            push_text(out, s);
        },
        PyObjectPayload::Float { value } => {
            push_str(out, "float ");
            let ghost p1 = out@;
            out.push(DebugPart::Float(*value));
            proof {
                assert(pieces(out@) =~= pieces(p1).push(DebugPiece::Float(*value)));
                assert(pieces(out@) =~= p0 + payload_pieces(h, i));
            }
        },
        PyObjectPayload::Complex { re, im } => {
            push_str(out, "complex ");
            let ghost p1 = out@;
            out.push(DebugPart::Complex(*re, *im));
            proof {
                assert(pieces(out@) =~= pieces(p1).push(DebugPiece::Complex(*re, *im)));
                assert(pieces(out@) =~= p0 + payload_pieces(h, i));
            }
        },
        PyObjectPayload::Bytes { value } => {
            let mut s = String::from_str("bytes/bytearray ");
            let d = bytes_debug(value);
            s.append(d.as_str());
            push_text(out, s);
        },
        PyObjectPayload::MemoryView { obj } => {
            push_str(out, "bytes/bytearray [PyObj ");
            push_payload_pieces(ctx, *obj, out);
            push_str(out, "]");
            proof {
                assert(pieces(out@) =~= p0 + payload_pieces(h, i));
            }
        },
        PyObjectPayload::Sequence { .. } => push_str(out, "list or tuple"),
        PyObjectPayload::Dict { .. } => push_str(out, "dict"),
        PyObjectPayload::PySet { .. } => push_str(out, "set"),
        PyObjectPayload::WeakRef { .. } => push_str(out, "weakref"),
        PyObjectPayload::Iterator { .. } => push_str(out, "iterator"),
        PyObjectPayload::EnumerateIterator { .. } => push_str(out, "enumerate"),
        PyObjectPayload::FilterIterator { .. } => push_str(out, "filter"),
        PyObjectPayload::MapIterator { .. } => push_str(out, "map"),
        PyObjectPayload::ZipIterator { .. } => push_str(out, "zip"),
        PyObjectPayload::Slice { .. } => push_str(out, "slice"),
        PyObjectPayload::Code { code } => {
            let mut s = String::from_str("code: ");
            let d = code_debug(code);
            s.append(d.as_str());
            push_text(out, s);
        },
        PyObjectPayload::Function { .. } => push_str(out, "function"),
        PyObjectPayload::Generator { .. } => push_str(out, "generator"),
        PyObjectPayload::BoundMethod { function, object } => {
            push_str(out, "bound-method: [PyObj ");
            push_payload_pieces(ctx, *function, out);
            push_str(out, "] of [PyObj ");
            push_payload_pieces(ctx, *object, out);
            push_str(out, "]");
            proof {
                assert(pieces(out@) =~= p0 + payload_pieces(h, i));
            }
        },
        PyObjectPayload::Module { .. } => push_str(out, "module"),
        PyObjectPayload::PyNone => push_str(out, "None"),
        PyObjectPayload::NotImplemented => push_str(out, "NotImplemented"),
        PyObjectPayload::Class { name, .. } => {
            let mut s = String::from_str("class ");
            let d = str_debug(name);
            s.append(d.as_str());
            push_text(out, s);
        },
        PyObjectPayload::Instance { .. } => push_str(out, "instance"),
        PyObjectPayload::RustFunction { .. } => push_str(out, "rust function"),
        PyObjectPayload::AnyRustValue { .. } => push_str(out, "some rust value"),
    }
}

impl PyContext {
    /// The debug description of the payload of the object `r`, as pieces.
    pub fn debug_payload(&self, r: PyObjectRef) -> (parts: Vec<DebugPart>)
        requires
            self.wf(),
            self.valid(r),
        ensures
            pieces(parts@) == payload_pieces(self.heap(), r.id as int),
    {
        let mut out: Vec<DebugPart> = Vec::new();
        proof {
            assert(pieces(out@) =~= Seq::<DebugPiece>::empty());
        }
        push_payload_pieces(self, r, &mut out);
        proof {
            assert(Seq::<DebugPiece>::empty() + payload_pieces(self.heap(), r.id as int)
                =~= payload_pieces(self.heap(), r.id as int));
        }
        out
    }

    /// The debug description of the object `r`: `[PyObj ` and the
    /// description of its payload and `]`, as pieces.
    pub fn debug_object(&self, r: PyObjectRef) -> (parts: Vec<DebugPart>)
        requires
            self.wf(),
            self.valid(r),
        ensures
            pieces(parts@) == text("[PyObj "@) + payload_pieces(self.heap(), r.id as int) + text(
                "]"@,
            ),
    {
        let mut out: Vec<DebugPart> = Vec::new();
        proof {
            assert(pieces(out@) =~= Seq::<DebugPiece>::empty());
        }
        push_str(&mut out, "[PyObj ");
        push_payload_pieces(self, r, &mut out);
        push_str(&mut out, "]");
        proof {
            assert(Seq::<DebugPiece>::empty() + text("[PyObj "@) =~= text("[PyObj "@));
        }
        out
    }
}

/// The text with which an object displays: `module '<name>'` for a module;
/// for a class, `type object '<name>'` when its type is named `type`;
/// otherwise `'<type name>' object`.
pub open spec fn display_text(h: Seq<PyObject>, o: PyObject) -> Seq<char> {
    let tname = class_name(h, o.typ->0);
    match o.payload {
        PyObjectPayload::Module { name, .. } => "module '"@ + name@ + "'"@,
        PyObjectPayload::Class { name, .. } => if tname == "type"@ {
            "type object '"@ + name@ + "'"@
        } else {
            "'"@ + tname + "' object"@
        },
        _ => "'"@ + tname + "' object"@,
    }
}

impl PyObject {
    /// The text with which this object displays.
    pub fn to_string(&self, ctx: &PyContext) -> (r: String)
        requires
            ctx.wf(),
            self.typ is Some,
            crate::object::is_class(ctx.heap(), self.typ->0),
        ensures
            r@ == display_text(ctx.heap(), *self),
    {
        let typ = match self.typ {
            Some(t) => t,
            None => PyObjectRef { id: 0 },
        };
        let tname = match &ctx.objects[typ.id].payload {
            PyObjectPayload::Class { name, .. } => name,
            _ => {
                proof {
                    assert(false);
                }
                return String::new();
            },
        };
        match &self.payload {
            PyObjectPayload::Module { name, .. } => {
                let mut s = String::from_str("module '");
                s.append(name.as_str());
                s.append("'");
                s
            },
            PyObjectPayload::Class { name, .. } => {
                let type_text = String::from_str("type");
                if *tname == type_text {
                    let mut s = String::from_str("type object '");
                    s.append(name.as_str());
                    s.append("'");
                    s
                } else {
                    let mut s = String::from_str("'");
                    s.append(tname.as_str());
                    s.append("' object");
                    s
                }
            },
            _ => {
                let mut s = String::from_str("'");
                s.append(tname.as_str());
                s.append("' object");
                s
            },
        }
    }
}

} // verus!
