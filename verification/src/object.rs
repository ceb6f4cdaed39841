use vstd::prelude::*;
use crate::bigint::PyInt;
use crate::socket::{Socket, SocketMethod};
use crate::strmap::{lists_keys, StrMap};

verus! {

/// A reference to a Python object: the object's index among the objects of
/// its context. Two references are the same object exactly when their
/// indices are equal.
#[derive(Clone, Copy, PartialEq, Eq, Structural, Debug)]
pub struct PyObjectRef {
    pub id: usize,
}

/// The attributes of an instance or a class, keyed by name.
pub type PyAttributes = StrMap<PyObjectRef>;

/// The content of a `dict`: for each key's text, the key object and the value.
pub type DictContentType = StrMap<(PyObjectRef, PyObjectRef)>;

/// A variable scope: its local variables (a `dict` object) and the scope
/// around it.
pub struct Scope {
    pub locals: PyObjectRef,
    pub parent: Option<ScopeRef>,
}

/// An owned scope.
pub type ScopeRef = Box<Scope>;

/// The native functions that this library provides.
#[derive(Clone, Copy, PartialEq, Eq, Structural, Debug)]
pub enum NativeFunction {
    Socket(SocketMethod),
}

/// The code object of compiled code, as far as the object model reads it:
/// its name, the file it came from and its first line.
pub struct CodeObject {
    pub obj_name: String,
    pub source_path: String,
    pub first_line_number: usize,
}

/// Two code objects with the same name, file and first line.
pub open spec fn same_code(a: CodeObject, b: CodeObject) -> bool {
    &&& a.obj_name@ == b.obj_name@
    &&& a.source_path@ == b.source_path@
    &&& a.first_line_number == b.first_line_number
}

impl CodeObject {
    /// A copy of this code object.
    pub fn copy(&self) -> (r: CodeObject)
        ensures
            same_code(r, *self),
    {
        CodeObject {
            obj_name: self.obj_name.clone(),
            source_path: self.source_path.clone(),
            first_line_number: self.first_line_number,
        }
    }
}

/// The Rust values that objects of built-in classes carry.
pub enum RustValue {
    /// The text of a `str` object.
    Str(String),
    /// The state of a `socket` object.
    Socket(Socket),
}

/// The Rust data that a Python object carries. The Python type of an object
/// is its `typ`, not its payload.
#[allow(inconsistent_fields)]
pub enum PyObjectPayload {
    Integer { value: PyInt },
    /// The IEEE-754 bits of the float.
    Float { value: u64 },
    /// The IEEE-754 bits of the real and the imaginary part.
    Complex { re: u64, im: u64 },
    Bytes { value: Vec<u8> },
    Sequence { elements: Vec<PyObjectRef> },
    Dict { elements: DictContentType },
    Iterator { position: usize, iterated_obj: PyObjectRef },
    EnumerateIterator { counter: PyInt, iterator: PyObjectRef },
    FilterIterator { predicate: PyObjectRef, iterator: PyObjectRef },
    MapIterator { mapper: PyObjectRef, iterators: Vec<PyObjectRef> },
    ZipIterator { iterators: Vec<PyObjectRef> },
    Slice { start: Option<PyInt>, stop: Option<PyInt>, step: Option<PyInt> },
    Code { code: CodeObject },
    MemoryView { obj: PyObjectRef },
    Function { code: PyObjectRef, scope: ScopeRef, defaults: PyObjectRef },
    Generator { frame: PyObjectRef },
    BoundMethod { function: PyObjectRef, object: PyObjectRef },
    Module { name: String, scope: ScopeRef },
    PyNone,
    NotImplemented,
    Class { name: String, dict: PyAttributes, mro: Vec<PyObjectRef> },
    PySet { elements: Vec<(u64, PyObjectRef)> },
    WeakRef { referent: PyObjectRef },
    Instance { dict: PyAttributes },
    RustFunction { function: NativeFunction },
    AnyRustValue { value: RustValue },
}

/// A Python object: its payload and its Python type.
pub struct PyObject {
    pub payload: PyObjectPayload,
    pub typ: Option<PyObjectRef>,
}

// ---------------------------------------------------------------------------
// The shape of a heap of objects.

/// Every reference in the list is below `n`.
pub open spec fn refs_ok(s: Seq<PyObjectRef>, n: nat) -> bool {
    forall|j: int| 0 <= j < s.len() ==> (#[trigger] s[j]).id < n
}

/// Attributes with unique names whose values are below `n`.
pub open spec fn attrs_ok(a: PyAttributes, n: nat) -> bool {
    &&& a.wf()
    &&& forall|k: Seq<char>| #[trigger] a.map().dom().contains(k) ==> a.map()[k].id < n
}

/// A dict content with unique keys whose key objects and values are below `n`.
pub open spec fn dict_ok(d: DictContentType, n: nat) -> bool {
    &&& d.wf()
    &&& forall|k: Seq<char>| #[trigger]
        d.map().dom().contains(k) ==> d.map()[k].0.id < n && d.map()[k].1.id < n
}

/// Every scope of the chain has its locals below `n`.
pub open spec fn scope_ok(s: Scope, n: nat) -> bool
    decreases s,
{
    &&& s.locals.id < n
    &&& match s.parent {
        Some(p) => scope_ok(*p, n),
        None => true,
    }
}

/// `r` is a class object of the heap.
pub open spec fn is_class(h: Seq<PyObject>, r: PyObjectRef) -> bool {
    r.id < h.len() && h[r.id as int].payload is Class
}

/// `r` is a dict object of the heap.
pub open spec fn is_dict(h: Seq<PyObject>, r: PyObjectRef) -> bool {
    r.id < h.len() && h[r.id as int].payload is Dict
}

/// What an object at position `i` of the heap may hold: references to
/// objects of the heap, classes in a class's method resolution order, a dict
/// as a module's locals, and, for the objects that a debug description
/// follows, references to earlier objects only.
pub open spec fn payload_ok(h: Seq<PyObject>, p: PyObjectPayload, i: int) -> bool {
    let n = h.len();
    match p {
        PyObjectPayload::Sequence { elements } => refs_ok(elements@, n),
        PyObjectPayload::Dict { elements } => dict_ok(elements, n),
        PyObjectPayload::Iterator { iterated_obj, .. } => iterated_obj.id < n,
        PyObjectPayload::EnumerateIterator { iterator, .. } => iterator.id < n,
        PyObjectPayload::FilterIterator { predicate, iterator } => predicate.id < n
            && iterator.id < n,
        PyObjectPayload::MapIterator { mapper, iterators } => mapper.id < n && refs_ok(
            iterators@,
            n,
        ),
        PyObjectPayload::ZipIterator { iterators } => refs_ok(iterators@, n),
        PyObjectPayload::MemoryView { obj } => obj.id < i,
        PyObjectPayload::Function { code, scope, defaults } => code.id < n && defaults.id < n
            && scope_ok(*scope, n),
        PyObjectPayload::Generator { frame } => frame.id < n,
        PyObjectPayload::BoundMethod { function, object } => function.id < i && object.id < i,
        PyObjectPayload::Module { scope, .. } => scope_ok(*scope, n) && is_dict(h, scope.locals),
        PyObjectPayload::Class { dict, mro, .. } => attrs_ok(dict, n) && forall|j: int|
            0 <= j < mro@.len() ==> is_class(h, #[trigger] mro@[j]),
        PyObjectPayload::PySet { elements } => forall|j: int|
            0 <= j < elements@.len() ==> (#[trigger] elements@[j]).1.id < n,
        PyObjectPayload::WeakRef { referent } => referent.id < n,
        PyObjectPayload::Instance { dict } => attrs_ok(dict, n),
        _ => true,
    }
}

/// The object at position `i` has a class of the heap as its type and a
/// payload as above.
pub open spec fn obj_ok(h: Seq<PyObject>, i: int) -> bool {
    &&& h[i].typ is Some
    &&& is_class(h, h[i].typ->0)
    &&& payload_ok(h, h[i].payload, i)
}

/// Every object of the heap is as above.
pub open spec fn heap_ok(h: Seq<PyObject>) -> bool {
    forall|i: int| 0 <= i < h.len() ==> #[trigger] obj_ok(h, i)
}

/// `h2` keeps every object of `h` where it was, as a class if it was one and
/// as a dict if it was one.
pub open spec fn kinds_preserved(h: Seq<PyObject>, h2: Seq<PyObject>) -> bool {
    &&& h.len() <= h2.len()
    &&& forall|j: int|
        0 <= j < h.len() ==> (#[trigger] h2[j].payload is Class <==> h[j].payload is Class)
            && (h2[j].payload is Dict <==> h[j].payload is Dict)
}

proof fn lemma_scope_ok_grow(s: Scope, n: nat, n2: nat)
    requires
        scope_ok(s, n),
        n <= n2,
    ensures
        scope_ok(s, n2),
    decreases s,
{
    match s.parent {
        Some(p) => lemma_scope_ok_grow(*p, n, n2),
        None => {},
    }
}

/// A payload that fits a heap fits any heap that keeps the kinds of its
/// objects.
proof fn lemma_payload_ok_preserved(
    h: Seq<PyObject>,
    h2: Seq<PyObject>,
    p: PyObjectPayload,
    i: int,
)
    requires
        payload_ok(h, p, i),
        kinds_preserved(h, h2),
    ensures
        payload_ok(h2, p, i),
{
    match p {
        PyObjectPayload::Function { scope, .. } => {
            lemma_scope_ok_grow(*scope, h.len(), h2.len());
        },
        PyObjectPayload::Module { scope, .. } => {
            lemma_scope_ok_grow(*scope, h.len(), h2.len());
            assert(h2[scope.locals.id as int].payload is Dict);
        },
        PyObjectPayload::Class { mro, .. } => {
            assert forall|j: int| 0 <= j < mro@.len() implies is_class(h2, #[trigger] mro@[j]) by {
                assert(is_class(h, mro@[j]));
                assert(h2[mro@[j].id as int].payload is Class);
            }
        },
        _ => {},
    }
}

/// Appending an object that fits keeps the heap well-formed.
proof fn lemma_push_ok(h: Seq<PyObject>, o: PyObject)
    requires
        heap_ok(h),
        o.typ is Some,
        is_class(h, o.typ->0),
        payload_ok(h, o.payload, h.len() as int),
    ensures
        heap_ok(h.push(o)),
        kinds_preserved(h, h.push(o)),
{
    let h2 = h.push(o);
    assert(kinds_preserved(h, h2)) by {
        assert forall|j: int| 0 <= j < h.len() implies (#[trigger] h2[j].payload is Class
            <==> h[j].payload is Class) && (h2[j].payload is Dict <==> h[j].payload is Dict) by {
            assert(h2[j] == h[j]);
        }
    }
    assert forall|i: int| 0 <= i < h2.len() implies #[trigger] obj_ok(h2, i) by {
        if i < h.len() {
            assert(h2[i] == h[i]);
            assert(obj_ok(h, i));
            lemma_payload_ok_preserved(h, h2, h[i].payload, i);
            assert(h2[h[i].typ->0.id as int] == h[h[i].typ->0.id as int]);
        } else {
            lemma_payload_ok_preserved(h, h2, o.payload, i);
            assert(h2[o.typ->0.id as int] == h[o.typ->0.id as int]);
        }
    }
}

/// Replacing an object by one of the same kind that fits keeps the heap
/// well-formed.
proof fn lemma_update_ok(h: Seq<PyObject>, i: int, o: PyObject)
    requires
        heap_ok(h),
        0 <= i < h.len(),
        o.typ is Some,
        is_class(h, o.typ->0),
        payload_ok(h, o.payload, i),
        o.payload is Class <==> h[i].payload is Class,
        o.payload is Dict <==> h[i].payload is Dict,
    ensures
        heap_ok(h.update(i, o)),
        kinds_preserved(h, h.update(i, o)),
{
    let h2 = h.update(i, o);
    assert(kinds_preserved(h, h2)) by {
        assert forall|j: int| 0 <= j < h.len() implies (#[trigger] h2[j].payload is Class
            <==> h[j].payload is Class) && (h2[j].payload is Dict <==> h[j].payload is Dict) by {
            if j != i {
                assert(h2[j] == h[j]);
            }
        }
    }
    assert forall|k: int| 0 <= k < h2.len() implies #[trigger] obj_ok(h2, k) by {
        if k != i {
            assert(h2[k] == h[k]);
            assert(obj_ok(h, k));
            lemma_payload_ok_preserved(h, h2, h[k].payload, k);
            let t = h[k].typ->0.id as int;
            assert(h2[t].payload is Class <==> h[t].payload is Class);
        } else {
            lemma_payload_ok_preserved(h, h2, o.payload, k);
            let t = o.typ->0.id as int;
            assert(h2[t].payload is Class <==> h[t].payload is Class);
        }
    }
}

impl PyContext {
    /// A context that names the same built-in classes as a well-formed one,
    /// over objects of the same kinds, has them as classes too.
    proof fn lemma_fields_kept(old: &PyContext, new: &PyContext)
        requires
            old.fields_ok(),
            new.same_fields(old),
            kinds_preserved(old.objects@, new.objects@),
        ensures
            new.fields_ok(),
    {
        let h = old.objects@;
        let h2 = new.objects@;
        assert forall|r: PyObjectRef| is_class(h, r) implies is_class(h2, r) by {
            assert(h2[r.id as int].payload is Class <==> h[r.id as int].payload is Class);
        }
    }
}

/// The name of a class object.
pub open spec fn class_name(h: Seq<PyObject>, r: PyObjectRef) -> Seq<char> {
    match h[r.id as int].payload {
        PyObjectPayload::Class { name, .. } => name@,
        _ => Seq::empty(),
    }
}

/// The method resolution order of a class object, without the class itself.
pub open spec fn class_mro(h: Seq<PyObject>, r: PyObjectRef) -> Seq<PyObjectRef> {
    match h[r.id as int].payload {
        PyObjectPayload::Class { mro, .. } => mro@,
        _ => Seq::empty(),
    }
}

/// The attributes of a class or instance object.
pub open spec fn own_attrs(h: Seq<PyObject>, r: PyObjectRef) -> Map<Seq<char>, PyObjectRef> {
    match h[r.id as int].payload {
        PyObjectPayload::Class { dict, .. } => dict.map(),
        PyObjectPayload::Instance { dict } => dict.map(),
        _ => Map::empty(),
    }
}

/// `r` is a class with the given name, type, no attributes and method
/// resolution order.
pub open spec fn is_new_class(
    h: Seq<PyObject>,
    r: PyObjectRef,
    name: Seq<char>,
    typ: PyObjectRef,
    mro: Seq<PyObjectRef>,
) -> bool {
    &&& is_class(h, r)
    &&& class_name(h, r) == name
    &&& class_mro(h, r) == mro
    &&& own_attrs(h, r) == Map::<Seq<char>, PyObjectRef>::empty()
    &&& h[r.id as int].typ == Some(typ)
}

/// `r` is a class with the given name, type and method resolution order.
pub open spec fn is_builtin_class(
    h: Seq<PyObject>,
    r: PyObjectRef,
    name: Seq<char>,
    typ: PyObjectRef,
    mro: Seq<PyObjectRef>,
) -> bool {
    &&& is_class(h, r)
    &&& class_name(h, r) == name
    &&& class_mro(h, r) == mro
    &&& h[r.id as int].typ == Some(typ)
}

/// A copy of the method resolution order of a class.
fn copy_mro(heap: &Vec<PyObject>, class: PyObjectRef) -> (r: Vec<PyObjectRef>)
    requires
        is_class(heap@, class),
    ensures
        r@ == class_mro(heap@, class),
{
    let mut r: Vec<PyObjectRef> = Vec::new();
    match &heap[class.id].payload {
        PyObjectPayload::Class { mro, .. } => {
            let mut i: usize = 0;
            while i < mro.len()
                invariant
                    i <= mro@.len(),
                    r@ == mro@.take(i as int),
                decreases mro@.len() - i,
            {
                r.push(mro[i]);
                i = i + 1;
                proof {
                    assert(r@ =~= mro@.take(i as int));
                }
            }
            proof {
                assert(mro@.take(i as int) =~= mro@);
            }
        },
        _ => {},
    }
    r
}

/// Appends a class object with no attributes to the heap.
fn push_class(
    heap: &mut Vec<PyObject>,
    name: String,
    typ: PyObjectRef,
    mro: Vec<PyObjectRef>,
) -> (r: PyObjectRef)
    requires
        heap_ok(old(heap)@),
        is_class(old(heap)@, typ),
        forall|j: int| 0 <= j < mro@.len() ==> is_class(old(heap)@, #[trigger] mro@[j]),
    ensures
        heap_ok(final(heap)@),
        kinds_preserved(old(heap)@, final(heap)@),
        final(heap)@.len() == old(heap)@.len() + 1,
        forall|j: int| 0 <= j < old(heap)@.len() ==> #[trigger] final(heap)@[j] == old(heap)@[j],
        r.id == old(heap)@.len(),
        is_new_class(final(heap)@, r, name@, typ, mro@),
{
    let r = PyObjectRef { id: heap.len() };
    let dict: PyAttributes = StrMap::new();
    let o = PyObject { payload: PyObjectPayload::Class { name, dict, mro }, typ: Some(typ) };
    proof {
        lemma_push_ok(old(heap)@, o);
    }
    heap.push(o);
    r
}

/// Creates a class with the given name, derived from `base`, as an object of
/// the heap: its method resolution order is `base` followed by that of
/// `base`.
pub fn create_type(
    heap: &mut Vec<PyObject>,
    name: &str,
    type_type: &PyObjectRef,
    base: &PyObjectRef,
    _dict_type: &PyObjectRef,
) -> (r: PyObjectRef)
    requires
        heap_ok(old(heap)@),
        is_class(old(heap)@, *type_type),
        is_class(old(heap)@, *base),
    ensures
        heap_ok(final(heap)@),
        kinds_preserved(old(heap)@, final(heap)@),
        final(heap)@.len() == old(heap)@.len() + 1,
        forall|j: int| 0 <= j < old(heap)@.len() ==> #[trigger] final(heap)@[j] == old(heap)@[j],
        r.id == old(heap)@.len(),
        is_new_class(
            final(heap)@,
            r,
            name@,
            *type_type,
            seq![*base] + class_mro(old(heap)@, *base),
        ),
{
    let base_mro = copy_mro(heap, *base);
    let mut mro: Vec<PyObjectRef> = Vec::new();
    mro.push(*base);
    let mut i: usize = 0;
    while i < base_mro.len()
        invariant
            i <= base_mro@.len(),
            base_mro@ == class_mro(heap@, *base),
            mro@ == seq![*base] + base_mro@.take(i as int),
            is_class(heap@, *base),
            heap_ok(heap@),
        decreases base_mro@.len() - i,
    {
        mro.push(base_mro[i]);
        i = i + 1;
        proof {
            assert(mro@ =~= seq![*base] + base_mro@.take(i as int));
        }
    }
    proof {
        assert(base_mro@.take(i as int) =~= base_mro@);
        assert(obj_ok(heap@, base.id as int));
        assert forall|j: int| 0 <= j < mro@.len() implies is_class(heap@, #[trigger] mro@[j]) by {
            if j > 0 {
                assert(mro@[j] == base_mro@[j - 1]);
            }
        }
    }
    push_class(heap, String::from_str(name), *type_type, mro)
}


/// The built-in classes and constants of the interpreter, and the objects
/// that it holds.
pub struct PyContext {
    pub bytes_type: PyObjectRef,
    pub bytearray_type: PyObjectRef,
    pub bool_type: PyObjectRef,
    pub classmethod_type: PyObjectRef,
    pub code_type: PyObjectRef,
    pub dict_type: PyObjectRef,
    pub enumerate_type: PyObjectRef,
    pub filter_type: PyObjectRef,
    pub float_type: PyObjectRef,
    pub frame_type: PyObjectRef,
    pub frozenset_type: PyObjectRef,
    pub generator_type: PyObjectRef,
    pub int_type: PyObjectRef,
    pub iter_type: PyObjectRef,
    pub complex_type: PyObjectRef,
    pub true_value: PyObjectRef,
    pub false_value: PyObjectRef,
    pub list_type: PyObjectRef,
    pub map_type: PyObjectRef,
    pub memoryview_type: PyObjectRef,
    pub none: PyObjectRef,
    pub not_implemented: PyObjectRef,
    pub tuple_type: PyObjectRef,
    pub set_type: PyObjectRef,
    pub staticmethod_type: PyObjectRef,
    pub super_type: PyObjectRef,
    pub str_type: PyObjectRef,
    pub range_type: PyObjectRef,
    pub slice_type: PyObjectRef,
    pub type_type: PyObjectRef,
    pub zip_type: PyObjectRef,
    pub function_type: PyObjectRef,
    pub builtin_function_or_method_type: PyObjectRef,
    pub property_type: PyObjectRef,
    pub module_type: PyObjectRef,
    pub bound_method_type: PyObjectRef,
    pub member_descriptor_type: PyObjectRef,
    pub object: PyObjectRef,
    /// Every object of this context; a `PyObjectRef` is a position here.
    pub objects: Vec<PyObject>,
}

impl PyContext {
    /// The objects of this context.
    pub open spec fn heap(&self) -> Seq<PyObject> {
        self.objects@
    }

    /// `r` refers to an object of this context.
    pub open spec fn valid(&self, r: PyObjectRef) -> bool {
        r.id < self.objects@.len()
    }

    /// The object that `r` refers to.
    pub open spec fn obj(&self, r: PyObjectRef) -> PyObject {
        self.objects@[r.id as int]
    }

    /// The built-in classes are classes and the constants are objects of
    /// this context.
    pub open spec fn fields_ok(&self) -> bool {
        &&& is_class(self.objects@, self.bytes_type)
        &&& is_class(self.objects@, self.bytearray_type)
        &&& is_class(self.objects@, self.bool_type)
        &&& is_class(self.objects@, self.classmethod_type)
        &&& is_class(self.objects@, self.code_type)
        &&& is_class(self.objects@, self.dict_type)
        &&& is_class(self.objects@, self.enumerate_type)
        &&& is_class(self.objects@, self.filter_type)
        &&& is_class(self.objects@, self.float_type)
        &&& is_class(self.objects@, self.frame_type)
        &&& is_class(self.objects@, self.frozenset_type)
        &&& is_class(self.objects@, self.generator_type)
        &&& is_class(self.objects@, self.int_type)
        &&& is_class(self.objects@, self.iter_type)
        &&& is_class(self.objects@, self.complex_type)
        &&& is_class(self.objects@, self.list_type)
        &&& is_class(self.objects@, self.map_type)
        &&& is_class(self.objects@, self.memoryview_type)
        &&& is_class(self.objects@, self.tuple_type)
        &&& is_class(self.objects@, self.set_type)
        &&& is_class(self.objects@, self.staticmethod_type)
        &&& is_class(self.objects@, self.super_type)
        &&& is_class(self.objects@, self.str_type)
        &&& is_class(self.objects@, self.range_type)
        &&& is_class(self.objects@, self.slice_type)
        &&& is_class(self.objects@, self.type_type)
        &&& is_class(self.objects@, self.zip_type)
        &&& is_class(self.objects@, self.function_type)
        &&& is_class(self.objects@, self.builtin_function_or_method_type)
        &&& is_class(self.objects@, self.property_type)
        &&& is_class(self.objects@, self.module_type)
        &&& is_class(self.objects@, self.bound_method_type)
        &&& is_class(self.objects@, self.member_descriptor_type)
        &&& is_class(self.objects@, self.object)
        &&& self.valid(self.true_value)
        &&& self.valid(self.false_value)
        &&& self.true_value != self.false_value
        &&& self.valid(self.none)
        &&& self.valid(self.not_implemented)
    }

    /// Well-formedness: every object fits the heap and the built-in classes
    /// are classes.
    pub open spec fn wf(&self) -> bool {
        heap_ok(self.objects@) && self.fields_ok()
    }

    /// Both contexts name the same built-in classes and constants.
    pub open spec fn same_fields(&self, other: &PyContext) -> bool {
        &&& self.bytes_type == other.bytes_type
        &&& self.bytearray_type == other.bytearray_type
        &&& self.bool_type == other.bool_type
        &&& self.classmethod_type == other.classmethod_type
        &&& self.code_type == other.code_type
        &&& self.dict_type == other.dict_type
        &&& self.enumerate_type == other.enumerate_type
        &&& self.filter_type == other.filter_type
        &&& self.float_type == other.float_type
        &&& self.frame_type == other.frame_type
        &&& self.frozenset_type == other.frozenset_type
        &&& self.generator_type == other.generator_type
        &&& self.int_type == other.int_type
        &&& self.iter_type == other.iter_type
        &&& self.complex_type == other.complex_type
        &&& self.true_value == other.true_value
        &&& self.false_value == other.false_value
        &&& self.list_type == other.list_type
        &&& self.map_type == other.map_type
        &&& self.memoryview_type == other.memoryview_type
        &&& self.none == other.none
        &&& self.not_implemented == other.not_implemented
        &&& self.tuple_type == other.tuple_type
        &&& self.set_type == other.set_type
        &&& self.staticmethod_type == other.staticmethod_type
        &&& self.super_type == other.super_type
        &&& self.str_type == other.str_type
        &&& self.range_type == other.range_type
        &&& self.slice_type == other.slice_type
        &&& self.type_type == other.type_type
        &&& self.zip_type == other.zip_type
        &&& self.function_type == other.function_type
        &&& self.builtin_function_or_method_type == other.builtin_function_or_method_type
        &&& self.property_type == other.property_type
        &&& self.module_type == other.module_type
        &&& self.bound_method_type == other.bound_method_type
        &&& self.member_descriptor_type == other.member_descriptor_type
        &&& self.object == other.object
    }

    /// `self` is `old` with objects appended and the objects of `old` of the
    /// same kind as before.
    pub open spec fn extends(&self, old: &PyContext) -> bool {
        &&& self.same_fields(old)
        &&& kinds_preserved(old.objects@, self.objects@)
    }

    pub fn bytes_type(&self) -> (r: PyObjectRef)
        ensures
            r == self.bytes_type,
    {
        self.bytes_type
    }

    pub fn bytearray_type(&self) -> (r: PyObjectRef)
        ensures
            r == self.bytearray_type,
    {
        self.bytearray_type
    }

    pub fn bool_type(&self) -> (r: PyObjectRef)
        ensures
            r == self.bool_type,
    {
        self.bool_type
    }

    pub fn classmethod_type(&self) -> (r: PyObjectRef)
        ensures
            r == self.classmethod_type,
    {
        self.classmethod_type
    }

    pub fn code_type(&self) -> (r: PyObjectRef)
        ensures
            r == self.code_type,
    {
        self.code_type
    }

    pub fn dict_type(&self) -> (r: PyObjectRef)
        ensures
            r == self.dict_type,
    {
        self.dict_type
    }

    pub fn enumerate_type(&self) -> (r: PyObjectRef)
        ensures
            r == self.enumerate_type,
    {
        self.enumerate_type
    }

    pub fn filter_type(&self) -> (r: PyObjectRef)
        ensures
            r == self.filter_type,
    {
        self.filter_type
    }

    pub fn float_type(&self) -> (r: PyObjectRef)
        ensures
            r == self.float_type,
    {
        self.float_type
    }

    pub fn frame_type(&self) -> (r: PyObjectRef)
        ensures
            r == self.frame_type,
    {
        self.frame_type
    }

    pub fn frozenset_type(&self) -> (r: PyObjectRef)
        ensures
            r == self.frozenset_type,
    {
        self.frozenset_type
    }

    pub fn generator_type(&self) -> (r: PyObjectRef)
        ensures
            r == self.generator_type,
    {
        self.generator_type
    }

    pub fn int_type(&self) -> (r: PyObjectRef)
        ensures
            r == self.int_type,
    {
        self.int_type
    }

    pub fn iter_type(&self) -> (r: PyObjectRef)
        ensures
            r == self.iter_type,
    {
        self.iter_type
    }

    pub fn complex_type(&self) -> (r: PyObjectRef)
        ensures
            r == self.complex_type,
    {
        self.complex_type
    }

    pub fn list_type(&self) -> (r: PyObjectRef)
        ensures
            r == self.list_type,
    {
        self.list_type
    }

    pub fn map_type(&self) -> (r: PyObjectRef)
        ensures
            r == self.map_type,
    {
        self.map_type
    }

    pub fn memoryview_type(&self) -> (r: PyObjectRef)
        ensures
            r == self.memoryview_type,
    {
        self.memoryview_type
    }

    pub fn tuple_type(&self) -> (r: PyObjectRef)
        ensures
            r == self.tuple_type,
    {
        self.tuple_type
    }

    pub fn set_type(&self) -> (r: PyObjectRef)
        ensures
            r == self.set_type,
    {
        self.set_type
    }

    pub fn staticmethod_type(&self) -> (r: PyObjectRef)
        ensures
            r == self.staticmethod_type,
    {
        self.staticmethod_type
    }

    pub fn super_type(&self) -> (r: PyObjectRef)
        ensures
            r == self.super_type,
    {
        self.super_type
    }

    pub fn str_type(&self) -> (r: PyObjectRef)
        ensures
            r == self.str_type,
    {
        self.str_type
    }

    pub fn range_type(&self) -> (r: PyObjectRef)
        ensures
            r == self.range_type,
    {
        self.range_type
    }

    pub fn slice_type(&self) -> (r: PyObjectRef)
        ensures
            r == self.slice_type,
    {
        self.slice_type
    }

    pub fn type_type(&self) -> (r: PyObjectRef)
        ensures
            r == self.type_type,
    {
        self.type_type
    }

    pub fn zip_type(&self) -> (r: PyObjectRef)
        ensures
            r == self.zip_type,
    {
        self.zip_type
    }

    pub fn function_type(&self) -> (r: PyObjectRef)
        ensures
            r == self.function_type,
    {
        self.function_type
    }

    pub fn builtin_function_or_method_type(&self) -> (r: PyObjectRef)
        ensures
            r == self.builtin_function_or_method_type,
    {
        self.builtin_function_or_method_type
    }

    pub fn property_type(&self) -> (r: PyObjectRef)
        ensures
            r == self.property_type,
    {
        self.property_type
    }

    pub fn module_type(&self) -> (r: PyObjectRef)
        ensures
            r == self.module_type,
    {
        self.module_type
    }

    pub fn bound_method_type(&self) -> (r: PyObjectRef)
        ensures
            r == self.bound_method_type,
    {
        self.bound_method_type
    }

    pub fn member_descriptor_type(&self) -> (r: PyObjectRef)
        ensures
            r == self.member_descriptor_type,
    {
        self.member_descriptor_type
    }

    pub fn none(&self) -> (r: PyObjectRef)
        ensures
            r == self.none,
    {
        self.none
    }

    pub fn not_implemented(&self) -> (r: PyObjectRef)
        ensures
            r == self.not_implemented,
    {
        self.not_implemented
    }

    pub fn object(&self) -> (r: PyObjectRef)
        ensures
            r == self.object,
    {
        self.object
    }

}

impl PyContext {
    /// The state of a new context: each built-in class is a class object of
    /// type `type` with its name; `bool` and `code` derive from `int`,
    /// `object` from nothing, every other class from `object`; `None`,
    /// `NotImplemented`, `True` and `False` are the objects of their classes.
    /// What attributes the classes hold is left open.
    pub open spec fn is_initial(&self) -> bool {
        &&& is_builtin_class(self.heap(), self.type_type, "type"@, self.type_type, seq![self.object])
        &&& is_builtin_class(self.heap(), self.object, "object"@, self.type_type, Seq::empty())
        &&& is_builtin_class(self.heap(), self.dict_type, "dict"@, self.type_type, seq![self.object])
        &&& is_builtin_class(self.heap(), self.module_type, "module"@, self.type_type, seq![self.object])
        &&& is_builtin_class(self.heap(), self.classmethod_type, "classmethod"@, self.type_type, seq![self.object])
        &&& is_builtin_class(self.heap(), self.staticmethod_type, "staticmethod"@, self.type_type, seq![self.object])
        &&& is_builtin_class(self.heap(), self.function_type, "function"@, self.type_type, seq![self.object])
        &&& is_builtin_class(self.heap(), self.builtin_function_or_method_type, "builtin_function_or_method"@, self.type_type, seq![self.object])
        &&& is_builtin_class(self.heap(), self.property_type, "property"@, self.type_type, seq![self.object])
        &&& is_builtin_class(self.heap(), self.super_type, "super"@, self.type_type, seq![self.object])
        &&& is_builtin_class(self.heap(), self.generator_type, "generator"@, self.type_type, seq![self.object])
        &&& is_builtin_class(self.heap(), self.bound_method_type, "method"@, self.type_type, seq![self.object])
        &&& is_builtin_class(self.heap(), self.member_descriptor_type, "member_descriptor"@, self.type_type, seq![self.object])
        &&& is_builtin_class(self.heap(), self.str_type, "str"@, self.type_type, seq![self.object])
        &&& is_builtin_class(self.heap(), self.list_type, "list"@, self.type_type, seq![self.object])
        &&& is_builtin_class(self.heap(), self.set_type, "set"@, self.type_type, seq![self.object])
        &&& is_builtin_class(self.heap(), self.frozenset_type, "frozenset"@, self.type_type, seq![self.object])
        &&& is_builtin_class(self.heap(), self.int_type, "int"@, self.type_type, seq![self.object])
        &&& is_builtin_class(self.heap(), self.float_type, "float"@, self.type_type, seq![self.object])
        &&& is_builtin_class(self.heap(), self.frame_type, "frame"@, self.type_type, seq![self.object])
        &&& is_builtin_class(self.heap(), self.complex_type, "complex"@, self.type_type, seq![self.object])
        &&& is_builtin_class(self.heap(), self.bytes_type, "bytes"@, self.type_type, seq![self.object])
        &&& is_builtin_class(self.heap(), self.bytearray_type, "bytearray"@, self.type_type, seq![self.object])
        &&& is_builtin_class(self.heap(), self.tuple_type, "tuple"@, self.type_type, seq![self.object])
        &&& is_builtin_class(self.heap(), self.iter_type, "iter"@, self.type_type, seq![self.object])
        &&& is_builtin_class(self.heap(), self.enumerate_type, "enumerate"@, self.type_type, seq![self.object])
        &&& is_builtin_class(self.heap(), self.filter_type, "filter"@, self.type_type, seq![self.object])
        &&& is_builtin_class(self.heap(), self.map_type, "map"@, self.type_type, seq![self.object])
        &&& is_builtin_class(self.heap(), self.zip_type, "zip"@, self.type_type, seq![self.object])
        &&& is_builtin_class(self.heap(), self.memoryview_type, "memoryview"@, self.type_type, seq![self.object])
        &&& is_builtin_class(self.heap(), self.range_type, "range"@, self.type_type, seq![self.object])
        &&& is_builtin_class(self.heap(), self.slice_type, "slice"@, self.type_type, seq![self.object])
        &&& is_builtin_class(self.heap(), self.bool_type, "bool"@, self.type_type, seq![self.int_type, self.object])
        &&& is_builtin_class(self.heap(), self.code_type, "code"@, self.type_type, seq![self.int_type, self.object])
        &&& self.obj(self.none).payload is PyNone
        &&& self.obj(self.none).typ is Some
        &&& is_builtin_class(
            self.heap(),
            self.obj(self.none).typ->0,
            "NoneType"@,
            self.type_type,
            seq![self.object],
        )
        &&& self.obj(self.not_implemented).payload is NotImplemented
        &&& self.obj(self.not_implemented).typ is Some
        &&& is_builtin_class(
            self.heap(),
            self.obj(self.not_implemented).typ->0,
            "NotImplementedType"@,
            self.type_type,
            seq![self.object],
        )
        &&& self.obj(self.true_value).payload matches PyObjectPayload::Integer { value } && value@ == 1
        &&& self.obj(self.true_value).typ == Some(self.bool_type)
        &&& self.obj(self.false_value).payload matches PyObjectPayload::Integer { value } && value@ == 0
        &&& self.obj(self.false_value).typ == Some(self.bool_type)
    }

    /// A context with the built-in classes, `None`, `NotImplemented`,
    /// `True` and `False`.
    #[verifier::rlimit(100)]
    pub fn new() -> (ctx: PyContext)
        ensures
            ctx.wf(),
            ctx.is_initial(),
    {
        let type_type = PyObjectRef { id: 0 };
        let object_type = PyObjectRef { id: 1 };
        let dict_type = PyObjectRef { id: 2 };
        let mut heap: Vec<PyObject> = Vec::new();
        let mut type_mro: Vec<PyObjectRef> = Vec::new();
        type_mro.push(object_type);
        let mut dict_mro: Vec<PyObjectRef> = Vec::new();
        dict_mro.push(object_type);
        heap.push(
            PyObject {
                payload: PyObjectPayload::Class {
                    name: String::from_str("type"),
                    dict: StrMap::new(),
                    mro: type_mro,
                },
                typ: Some(type_type),
            },
        );
        heap.push(
            PyObject {
                payload: PyObjectPayload::Class {
                    name: String::from_str("object"),
                    dict: StrMap::new(),
                    mro: Vec::new(),
                },
                typ: Some(type_type),
            },
        );
        heap.push(
            PyObject {
                payload: PyObjectPayload::Class {
                    name: String::from_str("dict"),
                    dict: StrMap::new(),
                    mro: dict_mro,
                },
                typ: Some(type_type),
            },
        );
        proof {
            let h = heap@;
            assert(is_class(h, object_type));
            assert(obj_ok(h, 0));
            assert(obj_ok(h, 1));
            assert(obj_ok(h, 2));
            assert(heap_ok(h));
            assert(class_mro(h, object_type) =~= Seq::<PyObjectRef>::empty());
        }
        let ghost h_boot = heap@;
        let names: Vec<&str> = vec![
            "module",
            "classmethod",
            "staticmethod",
            "function",
            "builtin_function_or_method",
            "property",
            "super",
            "generator",
            "method",
            "member_descriptor",
            "str",
            "list",
            "set",
            "frozenset",
            "int",
            "float",
            "frame",
            "complex",
            "bytes",
            "bytearray",
            "tuple",
            "iter",
            "enumerate",
            "filter",
            "map",
            "zip",
            "memoryview",
            "range",
            "slice",
        ];
        let mut refs: Vec<PyObjectRef> = Vec::new();
        let mut k: usize = 0;
        while k < names.len()
            invariant
                k <= names@.len(),
                type_type.id == 0,
                object_type.id == 1,
                dict_type.id == 2,
                heap_ok(heap@),
                heap@.len() == 3 + k,
                is_class(heap@, type_type),
                refs@.len() == k,
                forall|j: int| 0 <= j < 3 ==> #[trigger] heap@[j] == h_boot[j],
                is_class(heap@, object_type),
                class_mro(heap@, object_type) == Seq::<PyObjectRef>::empty(),
                forall|j: int|
                    0 <= j < k ==> (#[trigger] refs@[j]).id < heap@.len() && is_new_class(
                        heap@,
                        refs@[j],
                        names@[j]@,
                        type_type,
                        seq![object_type],
                    ),
            decreases names@.len() - k,
        {
            let ghost h0 = heap@;
            let r = create_type(&mut heap, names[k], &type_type, &object_type, &dict_type);
            refs.push(r);
            k = k + 1;
            proof {
                assert forall|j: int|
                    0 <= j < k implies (#[trigger] refs@[j]).id < heap@.len() && is_new_class(
                        heap@,
                        refs@[j],
                        names@[j]@,
                        type_type,
                        seq![object_type],
                    ) by {
                    if j < k - 1 {
                        assert(heap@[refs@[j].id as int] == h0[refs@[j].id as int]);
                    } else {
                        assert(seq![object_type] + class_mro(h0, object_type) =~= seq![object_type]);
                    }
                }
                assert(heap@[1] == h0[1]);
                assert(heap@[0] == h0[0]);
            }
        }
        let ghost h_types = heap@;
        let int_type = refs[14];
        proof {
            assert(is_new_class(h_types, int_type, "int"@, type_type, seq![object_type]));
        }
        let bool_type = create_type(&mut heap, "bool", &type_type, &int_type, &dict_type);
        let code_type = create_type(&mut heap, "code", &type_type, &int_type, &dict_type);
        let none_class = create_type(&mut heap, "NoneType", &type_type, &object_type, &dict_type);
        let none = PyObjectRef { id: heap.len() };
        proof {
            lemma_push_ok(heap@, PyObject { payload: PyObjectPayload::PyNone, typ: Some(none_class) });
        }
        heap.push(PyObject { payload: PyObjectPayload::PyNone, typ: Some(none_class) });
        let not_implemented_class = create_type(
            &mut heap,
            "NotImplementedType",
            &type_type,
            &object_type,
            &dict_type,
        );
        let not_implemented = PyObjectRef { id: heap.len() };
        proof {
            lemma_push_ok(
                heap@,
                PyObject { payload: PyObjectPayload::NotImplemented, typ: Some(not_implemented_class) },
            );
        }
        heap.push(
            PyObject { payload: PyObjectPayload::NotImplemented, typ: Some(not_implemented_class) },
        );
        let true_value = PyObjectRef { id: heap.len() };
        let one = PyInt::one();
        let t = PyObject { payload: PyObjectPayload::Integer { value: one }, typ: Some(bool_type) };
        proof {
            lemma_push_ok(heap@, t);
        }
        heap.push(t);
        let false_value = PyObjectRef { id: heap.len() };
        let zero = PyInt::zero();
        let f = PyObject { payload: PyObjectPayload::Integer { value: zero }, typ: Some(bool_type) };
        proof {
            lemma_push_ok(heap@, f);
        }
        heap.push(f);
        proof {
            assert forall|j: int| 0 <= j < h_types.len() implies #[trigger] heap@[j] == h_types[j] by {}
            assert forall|j: int| 0 <= j < refs@.len() implies is_new_class(
                heap@,
                #[trigger] refs@[j],
                names@[j]@,
                type_type,
                seq![object_type],
            ) by {
                assert(heap@[refs@[j].id as int] == h_types[refs@[j].id as int]);
            }
            assert(heap@[0] == h_boot[0] && heap@[1] == h_boot[1] && heap@[2] == h_boot[2]);
            assert(seq![int_type] + class_mro(h_types, int_type) =~= seq![int_type, object_type]);
        }
        PyContext {
            module_type: refs[0],
            classmethod_type: refs[1],
            staticmethod_type: refs[2],
            function_type: refs[3],
            builtin_function_or_method_type: refs[4],
            property_type: refs[5],
            super_type: refs[6],
            generator_type: refs[7],
            bound_method_type: refs[8],
            member_descriptor_type: refs[9],
            str_type: refs[10],
            list_type: refs[11],
            set_type: refs[12],
            frozenset_type: refs[13],
            int_type: refs[14],
            float_type: refs[15],
            frame_type: refs[16],
            complex_type: refs[17],
            bytes_type: refs[18],
            bytearray_type: refs[19],
            tuple_type: refs[20],
            iter_type: refs[21],
            enumerate_type: refs[22],
            filter_type: refs[23],
            map_type: refs[24],
            zip_type: refs[25],
            memoryview_type: refs[26],
            range_type: refs[27],
            slice_type: refs[28],
            bool_type,
            code_type,
            dict_type,
            true_value,
            false_value,
            none,
            not_implemented,
            object: object_type,
            type_type,
            objects: heap,
        }
    }
}

impl Default for PyContext {
    /// A new context, as `PyContext::new` makes it.
    fn default() -> (ctx: PyContext)
        ensures
            ctx.wf(),
            ctx.is_initial(),
    {
        PyContext::new()
    }
}


/// The text of a `str` object, if it is one.
pub open spec fn str_text(h: Seq<PyObject>, r: PyObjectRef) -> Option<Seq<char>> {
    match h[r.id as int].payload {
        PyObjectPayload::AnyRustValue { value: RustValue::Str(s) } => Some(s@),
        _ => None,
    }
}

/// The content of a `dict` object, keyed by the text of each key.
pub open spec fn dict_map(h: Seq<PyObject>, r: PyObjectRef) -> Map<
    Seq<char>,
    (PyObjectRef, PyObjectRef),
> {
    match h[r.id as int].payload {
        PyObjectPayload::Dict { elements } => elements.map(),
        _ => Map::empty(),
    }
}

/// The entries of a `dict` object in the order in which their keys came.
pub open spec fn dict_entries(h: Seq<PyObject>, r: PyObjectRef) -> Seq<
    (String, (PyObjectRef, PyObjectRef)),
> {
    match h[r.id as int].payload {
        PyObjectPayload::Dict { elements } => elements.entries(),
        _ => Seq::empty(),
    }
}

impl PyObject {
    /// Creates an object with the given payload and type in the context.
    pub fn new(payload: PyObjectPayload, typ: PyObjectRef, ctx: &mut PyContext) -> (r: PyObjectRef)
        requires
            old(ctx).wf(),
            is_class(old(ctx).heap(), typ),
            payload_ok(old(ctx).heap(), payload, old(ctx).heap().len() as int),
        ensures
            final(ctx).wf(),
            final(ctx).extends(old(ctx)),
            final(ctx).heap() == old(ctx).heap().push(PyObject { payload, typ: Some(typ) }),
            r.id == old(ctx).heap().len(),
    {
        PyObject { payload, typ: Some(typ) }.into_ref(ctx)
    }

    /// Moves this object into the context and returns a reference to it.
    pub fn into_ref(self, ctx: &mut PyContext) -> (r: PyObjectRef)
        requires
            old(ctx).wf(),
            self.typ is Some,
            is_class(old(ctx).heap(), self.typ->0),
            payload_ok(old(ctx).heap(), self.payload, old(ctx).heap().len() as int),
        ensures
            final(ctx).wf(),
            final(ctx).extends(old(ctx)),
            final(ctx).heap() == old(ctx).heap().push(self),
            r.id == old(ctx).heap().len(),
    {
        let r = PyObjectRef { id: ctx.objects.len() };
        proof {
            lemma_push_ok(ctx.objects@, self);
        }
        ctx.objects.push(self);
        r
    }

    /// The Rust value that this object carries, if it carries one.
    pub fn payload(&self) -> (r: Option<&RustValue>)
        ensures
            match self.payload {
                PyObjectPayload::AnyRustValue { value } => r == Some(&value),
                _ => r is None,
            },
    {
        match &self.payload {
            PyObjectPayload::AnyRustValue { value } => Some(value),
            _ => None,
        }
    }
}

impl PyContext {
    /// `self` is `old` with one object of type `typ` appended, referred to
    /// by `r`.
    pub open spec fn appended(&self, old: &PyContext, r: PyObjectRef, typ: PyObjectRef) -> bool {
        &&& self.extends(old)
        &&& self.heap().len() == old.heap().len() + 1
        &&& forall|j: int| 0 <= j < old.heap().len() ==> #[trigger] self.heap()[j] == old.heap()[j]
        &&& r.id == old.heap().len()
        &&& self.obj(r).typ == Some(typ)
    }

    /// The object that `r` refers to.
    pub fn get_object(&self, r: PyObjectRef) -> (o: &PyObject)
        requires
            self.valid(r),
        ensures
            *o == self.obj(r),
    {
        &self.objects[r.id]
    }

    /// A new instance of `object`, with no attributes.
    pub fn new_object(&mut self) -> (r: PyObjectRef)
        requires
            old(self).wf(),
        ensures
            final(self).wf(),
            final(self).appended(old(self), r, old(self).object),
            final(self).obj(r).payload is Instance,
            own_attrs(final(self).heap(), r) == Map::<Seq<char>, PyObjectRef>::empty(),
    {
        let class = self.object();
        self.new_instance(class, None)
    }

    /// A new `int` object.
    pub fn new_int(&mut self, i: PyInt) -> (r: PyObjectRef)
        requires
            old(self).wf(),
        ensures
            final(self).wf(),
            final(self).appended(old(self), r, old(self).int_type),
            final(self).obj(r).payload == (PyObjectPayload::Integer { value: i }),
    {
        let typ = self.int_type();
        PyObject::new(PyObjectPayload::Integer { value: i }, typ, self)
    }

    /// A new `float` object, given by the IEEE-754 bits of its value.
    pub fn new_float(&mut self, value: u64) -> (r: PyObjectRef)
        requires
            old(self).wf(),
        ensures
            final(self).wf(),
            final(self).appended(old(self), r, old(self).float_type),
            final(self).obj(r).payload == (PyObjectPayload::Float { value }),
    {
        let typ = self.float_type();
        PyObject::new(PyObjectPayload::Float { value }, typ, self)
    }

    /// A new `complex` object, given by the IEEE-754 bits of its parts.
    pub fn new_complex(&mut self, re: u64, im: u64) -> (r: PyObjectRef)
        requires
            old(self).wf(),
        ensures
            final(self).wf(),
            final(self).appended(old(self), r, old(self).complex_type),
            final(self).obj(r).payload == (PyObjectPayload::Complex { re, im }),
    {
        let typ = self.complex_type();
        PyObject::new(PyObjectPayload::Complex { re, im }, typ, self)
    }

    /// A new `str` object.
    pub fn new_str(&mut self, s: String) -> (r: PyObjectRef)
        requires
            old(self).wf(),
        ensures
            final(self).wf(),
            final(self).appended(old(self), r, old(self).str_type),
            final(self).obj(r).payload == (PyObjectPayload::AnyRustValue {
                value: RustValue::Str(s),
            }),
            str_text(final(self).heap(), r) == Some(s@),
    {
        let typ = self.str_type();
        PyObject::new(PyObjectPayload::AnyRustValue { value: RustValue::Str(s) }, typ, self)
    }

    /// A new `bytes` object.
    pub fn new_bytes(&mut self, data: Vec<u8>) -> (r: PyObjectRef)
        requires
            old(self).wf(),
        ensures
            final(self).wf(),
            final(self).appended(old(self), r, old(self).bytes_type),
            final(self).obj(r).payload == (PyObjectPayload::Bytes { value: data }),
    {
        let typ = self.bytes_type();
        PyObject::new(PyObjectPayload::Bytes { value: data }, typ, self)
    }

    /// A new `bytearray` object.
    pub fn new_bytearray(&mut self, data: Vec<u8>) -> (r: PyObjectRef)
        requires
            old(self).wf(),
        ensures
            final(self).wf(),
            final(self).appended(old(self), r, old(self).bytearray_type),
            final(self).obj(r).payload == (PyObjectPayload::Bytes { value: data }),
    {
        let typ = self.bytearray_type();
        PyObject::new(PyObjectPayload::Bytes { value: data }, typ, self)
    }

    /// A new `code` object.
    pub fn new_code_object(&mut self, code: CodeObject) -> (r: PyObjectRef)
        requires
            old(self).wf(),
        ensures
            final(self).wf(),
            final(self).appended(old(self), r, old(self).code_type),
            final(self).obj(r).payload == (PyObjectPayload::Code { code }),
    {
        let typ = self.code_type();
        PyObject::new(PyObjectPayload::Code { code }, typ, self)
    }

    /// The `True` or the `False` object of this context: no new object.
    pub fn new_bool(&self, b: bool) -> (r: PyObjectRef)
        ensures
            r == (if b {
                self.true_value
            } else {
                self.false_value
            }),
    {
        if b {
            self.true_value
        } else {
            self.false_value
        }
    }

    /// Law: `new_bool` gives the same object for the same value and
    /// different objects for `true` and `false`.
    pub proof fn law_new_bool_distinct(&self)
        requires
            self.wf(),
        ensures
            self.true_value != self.false_value,
    {
    }

    /// A new `tuple` object with the given elements.
    pub fn new_tuple(&mut self, elements: Vec<PyObjectRef>) -> (r: PyObjectRef)
        requires
            old(self).wf(),
            refs_ok(elements@, old(self).heap().len()),
        ensures
            final(self).wf(),
            final(self).appended(old(self), r, old(self).tuple_type),
            final(self).obj(r).payload == (PyObjectPayload::Sequence { elements }),
    {
        let typ = self.tuple_type();
        PyObject::new(PyObjectPayload::Sequence { elements }, typ, self)
    }

    /// A new `list` object with the given elements.
    pub fn new_list(&mut self, elements: Vec<PyObjectRef>) -> (r: PyObjectRef)
        requires
            old(self).wf(),
            refs_ok(elements@, old(self).heap().len()),
        ensures
            final(self).wf(),
            final(self).appended(old(self), r, old(self).list_type),
            final(self).obj(r).payload == (PyObjectPayload::Sequence { elements }),
    {
        let typ = self.list_type();
        PyObject::new(PyObjectPayload::Sequence { elements }, typ, self)
    }

    /// A new, empty `set` object.
    pub fn new_set(&mut self) -> (r: PyObjectRef)
        requires
            old(self).wf(),
        ensures
            final(self).wf(),
            final(self).appended(old(self), r, old(self).set_type),
            final(self).obj(r).payload matches PyObjectPayload::PySet { elements }
                && elements@.len() == 0,
    {
        let typ = self.set_type();
        PyObject::new(PyObjectPayload::PySet { elements: Vec::new() }, typ, self)
    }

    /// A new, empty `dict` object.
    pub fn new_dict(&mut self) -> (r: PyObjectRef)
        requires
            old(self).wf(),
        ensures
            final(self).wf(),
            final(self).appended(old(self), r, old(self).dict_type),
            is_dict(final(self).heap(), r),
            dict_map(final(self).heap(), r) == Map::<Seq<char>, (PyObjectRef, PyObjectRef)>::empty(),
            dict_entries(final(self).heap(), r).len() == 0,
    {
        let typ = self.dict_type();
        let elements: DictContentType = StrMap::new();
        PyObject::new(PyObjectPayload::Dict { elements }, typ, self)
    }

    /// A new class of type `type` with the given name, derived from `base`,
    /// with no attributes.
    pub fn new_class(&mut self, name: &str, base: PyObjectRef) -> (r: PyObjectRef)
        requires
            old(self).wf(),
            is_class(old(self).heap(), base),
        ensures
            final(self).wf(),
            final(self).appended(old(self), r, old(self).type_type),
            is_new_class(
                final(self).heap(),
                r,
                name@,
                old(self).type_type,
                seq![base] + class_mro(old(self).heap(), base),
            ),
    {
        let type_type = self.type_type;
        let dict_type = self.dict_type;
        let r = create_type(&mut self.objects, name, &type_type, &base, &dict_type);
        r
    }

    /// A new scope, with a new `dict` for its locals, inside `parent`.
    pub fn new_scope(&mut self, parent: Option<ScopeRef>) -> (s: ScopeRef)
        requires
            old(self).wf(),
            parent matches Some(p) ==> scope_ok(*p, old(self).heap().len()),
        ensures
            final(self).wf(),
            final(self).appended(old(self), s.locals, old(self).dict_type),
            is_dict(final(self).heap(), s.locals),
            dict_map(final(self).heap(), s.locals) == Map::<
                Seq<char>,
                (PyObjectRef, PyObjectRef),
            >::empty(),
            s.parent == parent,
            scope_ok(*s, final(self).heap().len()),
    {
        let locals = self.new_dict();
        proof {
            if parent is Some {
                lemma_scope_ok_grow(*parent->0, old(self).heap().len(), self.heap().len());
            }
        }
        Box::new(Scope { locals, parent })
    }

    /// A new module with the given name and scope.
    pub fn new_module(&mut self, name: &str, scope: ScopeRef) -> (r: PyObjectRef)
        requires
            old(self).wf(),
            scope_ok(*scope, old(self).heap().len()),
            is_dict(old(self).heap(), scope.locals),
        ensures
            final(self).wf(),
            final(self).appended(old(self), r, old(self).module_type),
            final(self).obj(r).payload matches PyObjectPayload::Module { name: n, scope: sc }
                && n@ == name@ && sc == scope,
    {
        let typ = self.module_type;
        PyObject::new(
            PyObjectPayload::Module { name: String::from_str(name), scope },
            typ,
            self,
        )
    }

    /// A new built-in function object for a native function.
    pub fn new_rustfunc(&mut self, f: NativeFunction) -> (r: PyObjectRef)
        requires
            old(self).wf(),
        ensures
            final(self).wf(),
            final(self).appended(old(self), r, old(self).builtin_function_or_method_type),
            final(self).obj(r).payload == (PyObjectPayload::RustFunction { function: f }),
    {
        let typ = self.builtin_function_or_method_type();
        PyObject::new(PyObjectPayload::RustFunction { function: f }, typ, self)
    }

    /// A new function object.
    pub fn new_function(
        &mut self,
        code_obj: PyObjectRef,
        scope: ScopeRef,
        defaults: PyObjectRef,
    ) -> (r: PyObjectRef)
        requires
            old(self).wf(),
            old(self).valid(code_obj),
            old(self).valid(defaults),
            scope_ok(*scope, old(self).heap().len()),
        ensures
            final(self).wf(),
            final(self).appended(old(self), r, old(self).function_type),
            final(self).obj(r).payload == (PyObjectPayload::Function {
                code: code_obj,
                scope,
                defaults,
            }),
    {
        let typ = self.function_type();
        PyObject::new(PyObjectPayload::Function { code: code_obj, scope, defaults }, typ, self)
    }

    /// A new bound method: `function` bound to `object`.
    pub fn new_bound_method(&mut self, function: PyObjectRef, object: PyObjectRef) -> (r:
        PyObjectRef)
        requires
            old(self).wf(),
            old(self).valid(function),
            old(self).valid(object),
        ensures
            final(self).wf(),
            final(self).appended(old(self), r, old(self).bound_method_type),
            final(self).obj(r).payload == (PyObjectPayload::BoundMethod { function, object }),
    {
        let typ = self.bound_method_type();
        PyObject::new(PyObjectPayload::BoundMethod { function, object }, typ, self)
    }

    /// A new instance of `class` with the given attributes, or none.
    pub fn new_instance(&mut self, class: PyObjectRef, dict: Option<PyAttributes>) -> (r:
        PyObjectRef)
        requires
            old(self).wf(),
            is_class(old(self).heap(), class),
            dict matches Some(d) ==> attrs_ok(d, old(self).heap().len()),
        ensures
            final(self).wf(),
            final(self).appended(old(self), r, class),
            final(self).obj(r).payload is Instance,
            own_attrs(final(self).heap(), r) == (match dict {
                Some(d) => d.map(),
                None => Map::<Seq<char>, PyObjectRef>::empty(),
            }),
    {
        let dict = if let Some(dict) = dict {
            dict
        } else {
            StrMap::new()
        };
        PyObject::new(PyObjectPayload::Instance { dict }, class, self)
    }
}


impl PyContext {
    /// `self` is `old` with a new `str` object for `key` appended and, in
    /// the `dict` object `d`, `key` set to that object and `v`.
    pub open spec fn dict_item_set(
        &self,
        old: &PyContext,
        d: PyObjectRef,
        key: Seq<char>,
        v: PyObjectRef,
    ) -> bool {
        let k = PyObjectRef { id: old.heap().len() as usize };
        &&& self.extends(old)
        &&& self.heap().len() == old.heap().len() + 1
        &&& str_text(self.heap(), k) == Some(key)
        &&& self.obj(k).typ == Some(old.str_type)
        &&& is_dict(self.heap(), d)
        &&& dict_map(self.heap(), d) == dict_map(old.heap(), d).insert(key, (k, v))
        &&& self.obj(d).typ == old.obj(d).typ
        &&& forall|j: int|
            0 <= j < old.heap().len() && j != d.id ==> #[trigger] self.heap()[j] == old.heap()[j]
    }

    /// `self` is `old` with the attribute `key` of the instance or class `o`
    /// set to `v`.
    pub open spec fn attr_item_set(
        &self,
        old: &PyContext,
        o: PyObjectRef,
        key: Seq<char>,
        v: PyObjectRef,
    ) -> bool {
        &&& self.extends(old)
        &&& self.heap().len() == old.heap().len()
        &&& (self.obj(o).payload is Class <==> old.obj(o).payload is Class)
        &&& (self.obj(o).payload is Instance <==> old.obj(o).payload is Instance)
        &&& own_attrs(self.heap(), o) == own_attrs(old.heap(), o).insert(key, v)
        &&& class_name(self.heap(), o) == class_name(old.heap(), o)
        &&& class_mro(self.heap(), o) == class_mro(old.heap(), o)
        &&& self.obj(o).typ == old.obj(o).typ
        &&& forall|j: int|
            0 <= j < old.heap().len() && j != o.id ==> #[trigger] self.heap()[j] == old.heap()[j]
    }

    /// Sets `key` to `entry` in the content of the `dict` object `d`.
    fn dict_insert(&mut self, d: PyObjectRef, key: String, entry: (PyObjectRef, PyObjectRef))
        requires
            old(self).wf(),
            is_dict(old(self).heap(), d),
            old(self).valid(entry.0),
            old(self).valid(entry.1),
        ensures
            final(self).wf(),
            final(self).extends(old(self)),
            final(self).heap().len() == old(self).heap().len(),
            is_dict(final(self).heap(), d),
            dict_map(final(self).heap(), d) == dict_map(old(self).heap(), d).insert(key@, entry),
            final(self).obj(d).typ == old(self).obj(d).typ,
            forall|j: int|
                0 <= j < old(self).heap().len() && j != d.id ==> #[trigger] final(self).heap()[j]
                    == old(self).heap()[j],
    {
        let ghost h0 = self.objects@;
        let mut o = PyObject { payload: PyObjectPayload::PyNone, typ: None };
        std::mem::swap(&mut o, &mut self.objects[d.id]);
        proof {
            assert(o == h0[d.id as int]);
            assert(obj_ok(h0, d.id as int));
        }
        let PyObject { payload, typ } = o;
        match payload {
            PyObjectPayload::Dict { mut elements } => {
                elements.insert(key, entry);
                let new_o = PyObject { payload: PyObjectPayload::Dict { elements }, typ };
                proof {
                    assert(payload_ok(h0, new_o.payload, d.id as int));
                    lemma_update_ok(h0, d.id as int, new_o);
                }
                self.objects.set(d.id, new_o);
                proof {
                    assert(self.objects@ == h0.update(d.id as int, new_o));
                }
            },
            other => {
                self.objects.set(d.id, PyObject { payload: other, typ });
            },
        }
    }

    /// Sets the attribute `key` of the instance or class `o` to `v`.
    fn attrs_insert(&mut self, o: PyObjectRef, key: String, v: PyObjectRef)
        requires
            old(self).wf(),
            old(self).valid(o),
            old(self).obj(o).payload is Class || old(self).obj(o).payload is Instance,
            old(self).valid(v),
        ensures
            final(self).wf(),
            final(self).attr_item_set(old(self), o, key@, v),
    {
        let ghost h0 = self.objects@;
        let mut obj = PyObject { payload: PyObjectPayload::PyNone, typ: None };
        std::mem::swap(&mut obj, &mut self.objects[o.id]);
        proof {
            assert(obj == h0[o.id as int]);
            assert(obj_ok(h0, o.id as int));
        }
        let PyObject { payload, typ } = obj;
        match payload {
            PyObjectPayload::Class { name, mut dict, mro } => {
                dict.insert(key, v);
                let new_o = PyObject { payload: PyObjectPayload::Class { name, dict, mro }, typ };
                proof {
                    assert(payload_ok(h0, new_o.payload, o.id as int));
                    lemma_update_ok(h0, o.id as int, new_o);
                }
                self.objects.set(o.id, new_o);
                proof {
                    assert(self.objects@ =~= h0.update(o.id as int, new_o));
                    assert(heap_ok(self.objects@));
                    PyContext::lemma_fields_kept(old(self), self);
                    assert(self.fields_ok());
                }
            },
            PyObjectPayload::Instance { mut dict } => {
                dict.insert(key, v);
                let new_o = PyObject { payload: PyObjectPayload::Instance { dict }, typ };
                proof {
                    assert(payload_ok(h0, new_o.payload, o.id as int));
                    lemma_update_ok(h0, o.id as int, new_o);
                }
                self.objects.set(o.id, new_o);
                proof {
                    assert(self.objects@ =~= h0.update(o.id as int, new_o));
                    PyContext::lemma_fields_kept(old(self), self);
                }
            },
            other => {
                proof {
                    assert(false);
                }
                self.objects.set(o.id, PyObject { payload: other, typ });
            },
        }
    }

    /// Sets the item `key` of the `dict` object `obj` to `v`; the key is
    /// stored as a new `str` object.
    pub fn set_item(&mut self, obj: &PyObjectRef, key: &str, v: PyObjectRef)
        requires
            old(self).wf(),
            is_dict(old(self).heap(), *obj),
            old(self).valid(v),
        ensures
            final(self).wf(),
            final(self).dict_item_set(old(self), *obj, key@, v),
    {
        let ghost old_ctx = *self;
        let key_obj = self.new_str(String::from_str(key));
        let ghost mid = *self;
        self.dict_insert(*obj, String::from_str(key), (key_obj, v));
        proof {
            assert(mid.heap()[obj.id as int] == old_ctx.heap()[obj.id as int]);
            assert(self.heap()[key_obj.id as int] == mid.heap()[key_obj.id as int]);
            assert forall|j: int|
                0 <= j < old_ctx.heap().len() && j != obj.id implies #[trigger] self.heap()[j]
                == old_ctx.heap()[j] by {
                assert(mid.heap()[j] == old_ctx.heap()[j]);
            }
        }
    }

    /// The attribute `attr_name` of `obj`, looked up as `obj.get_attr`
    /// does.
    pub fn get_attr(&self, obj: &PyObjectRef, attr_name: &str) -> (r: Option<PyObjectRef>)
        requires
            self.wf(),
            self.valid(*obj),
        ensures
            r == attr_lookup(self.heap(), *obj, attr_name@),
    {
        obj.get_attr(self, &String::from_str(attr_name))
    }

    /// Sets the attribute `attr_name` of a module, an instance or a class.
    /// A module keeps its attributes as the items of its locals.
    pub fn set_attr(&mut self, obj: &PyObjectRef, attr_name: &str, value: PyObjectRef)
        requires
            old(self).wf(),
            old(self).valid(*obj),
            old(self).obj(*obj).payload is Module || old(self).obj(*obj).payload is Instance
                || old(self).obj(*obj).payload is Class,
            old(self).valid(value),
        ensures
            final(self).wf(),
            match old(self).obj(*obj).payload {
                PyObjectPayload::Module { scope, .. } => final(self).dict_item_set(
                    old(self),
                    scope.locals,
                    attr_name@,
                    value,
                ),
                _ => final(self).attr_item_set(old(self), *obj, attr_name@, value),
            },
    {
        proof {
            assert(obj_ok(self.heap(), obj.id as int));
        }
        let locals = match &self.objects[obj.id].payload {
            PyObjectPayload::Module { scope, .. } => Some(scope.locals),
            _ => None,
        };
        match locals {
            Some(locals) => {
                self.set_item(&locals, attr_name, value);
            },
            None => {
                self.attrs_insert(*obj, String::from_str(attr_name), value);
            },
        }
    }
}

/// The value of `name` in the own attributes of the first of `classes` that
/// has it.
pub open spec fn lookup_in_classes(
    h: Seq<PyObject>,
    classes: Seq<PyObjectRef>,
    name: Seq<char>,
) -> Option<PyObjectRef>
    decreases classes.len(),
{
    if classes.len() == 0 {
        None
    } else if own_attrs(h, classes[0]).dom().contains(name) {
        Some(own_attrs(h, classes[0])[name])
    } else {
        lookup_in_classes(h, classes.drop_first(), name)
    }
}

/// The value of an item of a `dict` object, if it has one.
pub open spec fn dict_value(h: Seq<PyObject>, d: PyObjectRef, key: Seq<char>) -> Option<
    PyObjectRef,
> {
    if dict_map(h, d).dom().contains(key) {
        Some(dict_map(h, d)[key].1)
    } else {
        None
    }
}

/// The attribute `name` of an object: a module's item of its locals; the
/// attribute of a class or, failing that, of the first class of its method
/// resolution order that has it; an instance's own attribute; for other
/// objects, none.
pub open spec fn attr_lookup(h: Seq<PyObject>, obj: PyObjectRef, name: Seq<char>) -> Option<
    PyObjectRef,
> {
    match h[obj.id as int].payload {
        PyObjectPayload::Module { scope, .. } => dict_value(h, scope.locals, name),
        PyObjectPayload::Class { mro, .. } => lookup_in_classes(h, seq![obj] + mro@, name),
        PyObjectPayload::Instance { dict } => if dict.map().dom().contains(name) {
            Some(dict.map()[name])
        } else {
            None
        },
        _ => None,
    }
}

/// Whether an object has the attribute `name`: a module's locals hold it;
/// a class or one of its method resolution order has it among its own
/// attributes; an instance has it among its own attributes.
pub open spec fn attr_present(h: Seq<PyObject>, obj: PyObjectRef, name: Seq<char>) -> bool {
    match h[obj.id as int].payload {
        PyObjectPayload::Module { scope, .. } => dict_map(h, scope.locals).dom().contains(name),
        PyObjectPayload::Class { mro, .. } => exists|j: int|
            0 <= j < mro@.len() + 1 && #[trigger] own_attrs(h, (seq![obj] + mro@)[j]).dom().contains(
                name,
            ),
        PyObjectPayload::Instance { dict } => dict.map().dom().contains(name),
        _ => false,
    }
}

/// The item `key` of a `dict` object, or of a module's locals.
pub open spec fn item_lookup(h: Seq<PyObject>, obj: PyObjectRef, key: Seq<char>) -> Option<
    PyObjectRef,
> {
    match h[obj.id as int].payload {
        PyObjectPayload::Module { scope, .. } => dict_value(h, scope.locals, key),
        _ => dict_value(h, obj, key),
    }
}

/// The `dict` object that holds the items of a `dict` object or module.
pub open spec fn item_dict(h: Seq<PyObject>, obj: PyObjectRef) -> PyObjectRef {
    match h[obj.id as int].payload {
        PyObjectPayload::Module { scope, .. } => scope.locals,
        _ => obj,
    }
}

proof fn lemma_lookup_in_classes(h: Seq<PyObject>, classes: Seq<PyObjectRef>, name: Seq<char>)
    ensures
        lookup_in_classes(h, classes, name) is Some <==> exists|j: int|
            0 <= j < classes.len() && #[trigger] own_attrs(h, classes[j]).dom().contains(name),
    decreases classes.len(),
{
    if classes.len() > 0 {
        let rest = classes.drop_first();
        lemma_lookup_in_classes(h, rest, name);
        if exists|j: int| 0 <= j < rest.len() && #[trigger] own_attrs(h, rest[j]).dom().contains(name) {
            let j = choose|j: int|
                0 <= j < rest.len() && #[trigger] own_attrs(h, rest[j]).dom().contains(name);
            assert(classes[j + 1] == rest[j]);
        }
        if exists|j: int|
            0 <= j < classes.len() && #[trigger] own_attrs(h, classes[j]).dom().contains(name) {
            let j = choose|j: int|
                0 <= j < classes.len() && #[trigger] own_attrs(h, classes[j]).dom().contains(name);
            if j > 0 {
                assert(rest[j - 1] == classes[j]);
            }
        }
    }
}

/// Law: an object has an attribute exactly when looking the attribute up
/// finds a value.
pub proof fn law_has_attr_iff_get_attr(ctx: &PyContext, obj: PyObjectRef, name: Seq<char>)
    requires
        ctx.wf(),
        ctx.valid(obj),
    ensures
        attr_present(ctx.heap(), obj, name) <==> attr_lookup(ctx.heap(), obj, name) is Some,
{
    match ctx.heap()[obj.id as int].payload {
        PyObjectPayload::Class { mro, .. } => {
            lemma_lookup_in_classes(ctx.heap(), seq![obj] + mro@, name);
        },
        _ => {},
    }
}

/// Looking a name up in a list of classes gives the same answer in two heaps
/// where each of the classes has the name, and the same value for it, in
/// both or in neither.
proof fn lemma_lookup_in_classes_same(
    h: Seq<PyObject>,
    h2: Seq<PyObject>,
    classes: Seq<PyObjectRef>,
    name: Seq<char>,
)
    requires
        forall|i: int|
            0 <= i < classes.len() ==> (#[trigger] own_attrs(h2, classes[i]).dom().contains(name)
                <==> own_attrs(h, classes[i]).dom().contains(name)),
        forall|i: int|
            0 <= i < classes.len() && own_attrs(h, classes[i]).dom().contains(name) ==> #[trigger] own_attrs(
                h2,
                classes[i],
            )[name] == own_attrs(h, classes[i])[name],
    ensures
        lookup_in_classes(h2, classes, name) == lookup_in_classes(h, classes, name),
    decreases classes.len(),
{
    if classes.len() > 0 {
        let rest = classes.drop_first();
        assert forall|i: int| 0 <= i < rest.len() implies (#[trigger] own_attrs(
            h2,
            rest[i],
        ).dom().contains(name) <==> own_attrs(h, rest[i]).dom().contains(name)) by {
            assert(rest[i] == classes[i + 1]);
        }
        assert forall|i: int|
            0 <= i < rest.len() && own_attrs(h, rest[i]).dom().contains(name) implies #[trigger] own_attrs(
            h2,
            rest[i],
        )[name] == own_attrs(h, rest[i])[name] by {
            assert(rest[i] == classes[i + 1]);
        }
        assert(own_attrs(h2, classes[0]).dom().contains(name) <==> own_attrs(
            h,
            classes[0],
        ).dom().contains(name));
        lemma_lookup_in_classes_same(h, h2, rest, name);
    }
}

/// Law: after `set_attr` on a module, an instance or a class, looking the
/// attribute up gives the value that was set, and every other attribute
/// of the object is as it was.
pub proof fn law_get_attr_after_set_attr(
    before: &PyContext,
    after: &PyContext,
    obj: PyObjectRef,
    name: Seq<char>,
    value: PyObjectRef,
    other: Seq<char>,
)
    requires
        before.wf(),
        before.valid(obj),
        before.obj(obj).payload is Module || before.obj(obj).payload is Instance
            || before.obj(obj).payload is Class,
        match before.obj(obj).payload {
            PyObjectPayload::Module { scope, .. } => after.dict_item_set(
                before,
                scope.locals,
                name,
                value,
            ),
            _ => after.attr_item_set(before, obj, name, value),
        },
    ensures
        attr_lookup(after.heap(), obj, name) == Some(value),
        other != name ==> attr_lookup(after.heap(), obj, other) == attr_lookup(
            before.heap(),
            obj,
            other,
        ),
{
    let h = before.heap();
    let h2 = after.heap();
    assert(obj_ok(h, obj.id as int));
    match h[obj.id as int].payload {
        PyObjectPayload::Module { scope, .. } => {
            assert(h2[obj.id as int] == h[obj.id as int]);
        },
        PyObjectPayload::Class { mro, .. } => {
            let classes = seq![obj] + mro@;
            assert(h2[obj.id as int].payload is Class);
            assert(class_mro(h2, obj) == mro@);
            assert(classes[0] == obj);
            assert(own_attrs(h2, obj).dom().contains(name));
            if other != name {
                assert forall|i: int| 0 <= i < classes.len() implies (#[trigger] own_attrs(
                    h2,
                    classes[i],
                ).dom().contains(other) <==> own_attrs(h, classes[i]).dom().contains(other)) && (
                own_attrs(h, classes[i]).dom().contains(other) ==> own_attrs(h2, classes[i])[other]
                    == own_attrs(h, classes[i])[other]) by {
                    if i > 0 {
                        assert(classes[i] == mro@[i - 1]);
                        assert(is_class(h, mro@[i - 1]));
                        if classes[i] != obj {
                            assert(h2[classes[i].id as int] == h[classes[i].id as int]);
                        }
                    }
                }
                lemma_lookup_in_classes_same(h, h2, classes, other);
            }
        },
        _ => {},
    }
}

/// Law: after `set_item` on a `dict` object or a module, the item is the
/// value that was set, and every other item is as it was.
pub proof fn law_get_item_after_set_item(
    before: &PyContext,
    after: &PyContext,
    obj: PyObjectRef,
    key: Seq<char>,
    value: PyObjectRef,
    other: Seq<char>,
)
    requires
        before.wf(),
        before.valid(obj),
        before.obj(obj).payload is Dict || before.obj(obj).payload is Module,
        after.dict_item_set(before, item_dict(before.heap(), obj), key, value),
    ensures
        item_lookup(after.heap(), obj, key) == Some(value),
        other != key ==> item_lookup(after.heap(), obj, other) == item_lookup(
            before.heap(),
            obj,
            other,
        ),
{
    let h = before.heap();
    let h2 = after.heap();
    assert(obj_ok(h, obj.id as int));
    match h[obj.id as int].payload {
        PyObjectPayload::Module { scope, .. } => {
            assert(h2[obj.id as int] == h[obj.id as int]);
        },
        _ => {},
    }
}

/// Law: every object is an instance of its own type.
pub proof fn law_isinstance_of_own_type(ctx: &PyContext, obj: PyObjectRef)
    requires
        ctx.wf(),
        ctx.valid(obj),
    ensures
        isinstance_spec(ctx.heap(), obj, ctx.obj(obj).typ->0),
{
}

/// `obj` is an instance of `cls`: `cls` is its type or in the method
/// resolution order of its type.
pub open spec fn isinstance_spec(h: Seq<PyObject>, obj: PyObjectRef, cls: PyObjectRef) -> bool {
    let t = h[obj.id as int].typ->0;
    t == cls || class_mro(h, t).contains(cls)
}

impl PyContext {
    /// Whether `obj` is an instance of `cls`.
    pub fn isinstance(&self, obj: &PyObjectRef, cls: &PyObjectRef) -> (r: bool)
        requires
            self.wf(),
            self.valid(*obj),
        ensures
            r == isinstance_spec(self.heap(), *obj, *cls),
    {
        let t = obj.typ(self);
        if t.id == cls.id {
            return true;
        }
        match &self.objects[t.id].payload {
            PyObjectPayload::Class { mro, .. } => {
                let mut i: usize = 0;
                while i < mro.len()
                    invariant
                        i <= mro@.len(),
                        t == self.obj(*obj).typ->0,
                        class_mro(self.heap(), t) == mro@,
                        forall|j: int| 0 <= j < i ==> mro@[j] != *cls,
                    decreases mro@.len() - i,
                {
                    if mro[i].id == cls.id {
                        proof {
                            assert(mro@[i as int] == *cls);
                            assert(class_mro(self.heap(), t).contains(*cls));
                        }
                        return true;
                    }
                    i = i + 1;
                }
                proof {
                    assert(!class_mro(self.heap(), t).contains(*cls));
                }
                false
            },
            _ => false,
        }
    }
}

/// What a handle of an object may be asked about in a context.
pub trait ObjectHandle {
    /// The handle refers to an object of the context.
    spec fn refers_in(&self, ctx: &PyContext) -> bool;

    /// The handle refers to a `dict` object of the context.
    spec fn is_dict_in(&self, ctx: &PyContext) -> bool;

    /// The handle refers to a `dict` object or a module of the context.
    spec fn is_mapping_in(&self, ctx: &PyContext) -> bool;

    /// The handle refers to an object whose type is the class `bytes`,
    /// `bytearray` or `memoryview`.
    spec fn is_buffer_in(&self, ctx: &PyContext) -> bool;
}

/// The name of the type of an object.
pub open spec fn type_name_of(h: Seq<PyObject>, obj: PyObjectRef) -> Seq<char> {
    class_name(h, h[obj.id as int].typ->0)
}

impl ObjectHandle for PyObjectRef {
    open spec fn refers_in(&self, ctx: &PyContext) -> bool {
        ctx.valid(*self)
    }

    open spec fn is_dict_in(&self, ctx: &PyContext) -> bool {
        is_dict(ctx.heap(), *self)
    }

    open spec fn is_mapping_in(&self, ctx: &PyContext) -> bool {
        ctx.valid(*self) && (ctx.obj(*self).payload is Dict || ctx.obj(*self).payload is Module)
    }

    open spec fn is_buffer_in(&self, ctx: &PyContext) -> bool {
        &&& ctx.valid(*self)
        &&& is_class(ctx.heap(), ctx.obj(*self).typ->0)
        &&& {
            let n = type_name_of(ctx.heap(), *self);
            n == "bytes"@ || n == "bytearray"@ || n == "memoryview"@
        }
    }
}

impl ObjectHandle for PyObject {
    open spec fn refers_in(&self, ctx: &PyContext) -> bool {
        self.typ is Some
    }

    open spec fn is_dict_in(&self, ctx: &PyContext) -> bool {
        self.payload is Dict
    }

    open spec fn is_mapping_in(&self, ctx: &PyContext) -> bool {
        self.payload is Dict || self.payload is Module
    }

    open spec fn is_buffer_in(&self, ctx: &PyContext) -> bool {
        false
    }
}

/// The identity of objects.
pub trait IdProtocol {
    fn get_id(&self) -> usize;

    fn is(&self, other: &PyObjectRef) -> bool;
}

impl IdProtocol for PyObjectRef {
    /// The identity of the object: its position in its context.
    fn get_id(&self) -> (r: usize)
        ensures
            r == self.id,
    {
        self.id
    }

    /// Whether both refer to the same object.
    fn is(&self, other: &PyObjectRef) -> (r: bool)
        ensures
            r == (self.id == other.id),
    {
        self.get_id() == other.get_id()
    }
}

/// Conversion of an object into a Rust value.
pub trait FromPyObjectRef: Sized {
    fn from_pyobj(ctx: &PyContext, obj: &PyObjectRef) -> Self;
}

/// The Python type of an object.
pub trait TypeProtocol: ObjectHandle {
    fn typ(&self, ctx: &PyContext) -> PyObjectRef
        requires
            ctx.wf(),
            self.refers_in(ctx),
    ;
}

impl TypeProtocol for PyObjectRef {
    fn typ(&self, ctx: &PyContext) -> (r: PyObjectRef)
        ensures
            r == ctx.obj(*self).typ->0,
            ctx.valid(r),
    {
        proof {
            assert(obj_ok(ctx.heap(), self.id as int));
        }
        ctx.objects[self.id].typ(ctx)
    }
}

impl TypeProtocol for PyObject {
    fn typ(&self, ctx: &PyContext) -> (r: PyObjectRef)
        ensures
            r == self.typ->0,
    {
        match self.typ {
            Some(typ) => typ,
            None => {
                proof {
                    assert(false);
                }
                PyObjectRef { id: 0 }
            },
        }
    }
}

/// Whether the own attributes of `class` hold `attr_name`, and its value.
fn class_get_item(ctx: &PyContext, class: &PyObjectRef, attr_name: &String) -> (r: Option<
    PyObjectRef,
>)
    requires
        ctx.wf(),
        is_class(ctx.heap(), *class),
    ensures
        r == (if own_attrs(ctx.heap(), *class).dom().contains(attr_name@) {
            Some(own_attrs(ctx.heap(), *class)[attr_name@])
        } else {
            None
        }),
{
    proof {
        assert(obj_ok(ctx.heap(), class.id as int));
    }
    match &ctx.objects[class.id].payload {
        PyObjectPayload::Class { dict, .. } => dict.get(attr_name),
        _ => None,
    }
}

/// Whether the own attributes of `class` hold `attr_name`.
fn class_has_item(ctx: &PyContext, class: &PyObjectRef, attr_name: &String) -> (r: bool)
    requires
        ctx.wf(),
        is_class(ctx.heap(), *class),
    ensures
        r == own_attrs(ctx.heap(), *class).dom().contains(attr_name@),
{
    proof {
        assert(obj_ok(ctx.heap(), class.id as int));
    }
    match &ctx.objects[class.id].payload {
        PyObjectPayload::Class { dict, .. } => dict.contains_key(attr_name),
        _ => false,
    }
}

/// Attribute lookup.
pub trait AttributeProtocol: ObjectHandle {
    fn get_attr(&self, ctx: &PyContext, attr_name: &String) -> Option<PyObjectRef>
        requires
            ctx.wf(),
            self.refers_in(ctx),
    ;

    fn has_attr(&self, ctx: &PyContext, attr_name: &String) -> bool
        requires
            ctx.wf(),
            self.refers_in(ctx),
    ;
}

impl AttributeProtocol for PyObjectRef {
    fn get_attr(&self, ctx: &PyContext, attr_name: &String) -> (r: Option<PyObjectRef>)
        ensures
            r == attr_lookup(ctx.heap(), *self, attr_name@),
    {
        proof {
            assert(obj_ok(ctx.heap(), self.id as int));
        }
        match &ctx.objects[self.id].payload {
            PyObjectPayload::Module { scope, .. } => scope.locals.get_item(ctx, attr_name),
            PyObjectPayload::Class { mro, .. } => {
                let ghost h = ctx.heap();
                let ghost name = attr_name@;
                let ghost chain = seq![*self] + mro@;
                proof {
                    assert(chain[0] == *self);
                    assert(chain.drop_first() =~= mro@);
                    assert(mro@.skip(0) =~= mro@);
                }
                if let Some(item) = class_get_item(ctx, self, attr_name) {
                    return Some(item);
                }
                let mut i: usize = 0;
                while i < mro.len()
                    invariant
                        ctx.wf(),
                        i <= mro@.len(),
                        forall|j: int| 0 <= j < mro@.len() ==> is_class(h, #[trigger] mro@[j]),
                        h == ctx.heap(),
                        name == attr_name@,
                        attr_lookup(h, *self, name) == lookup_in_classes(h, chain, name),
                        lookup_in_classes(h, chain, name) == lookup_in_classes(
                            h,
                            mro@.skip(i as int),
                            name,
                        ),
                    decreases mro@.len() - i,
                {
                    proof {
                        assert(mro@.skip(i as int)[0] == mro@[i as int]);
                        assert(mro@.skip(i as int).drop_first() =~= mro@.skip(i + 1));
                    }
                    if let Some(item) = class_get_item(ctx, &mro[i], attr_name) {
                        return Some(item);
                    }
                    i = i + 1;
                }
                None
            },
            PyObjectPayload::Instance { dict } => dict.get(attr_name),
            _ => None,
        }
    }

    fn has_attr(&self, ctx: &PyContext, attr_name: &String) -> (r: bool)
        ensures
            r == attr_present(ctx.heap(), *self, attr_name@),
    {
        proof {
            assert(obj_ok(ctx.heap(), self.id as int));
        }
        match &ctx.objects[self.id].payload {
            PyObjectPayload::Module { scope, .. } => scope.locals.contains_key(ctx, attr_name),
            PyObjectPayload::Class { mro, .. } => {
                let ghost h = ctx.heap();
                let ghost name = attr_name@;
                let ghost chain = seq![*self] + mro@;
                if class_has_item(ctx, self, attr_name) {
                    proof {
                        assert(own_attrs(h, chain[0]).dom().contains(name));
                    }
                    return true;
                }
                let mut i: usize = 0;
                while i < mro.len()
                    invariant
                        ctx.wf(),
                        i <= mro@.len(),
                        forall|j: int| 0 <= j < mro@.len() ==> is_class(h, #[trigger] mro@[j]),
                        h == ctx.heap(),
                        name == attr_name@,
                        chain == seq![*self] + mro@,
                        attr_present(h, *self, name) == exists|j: int|
                            0 <= j < mro@.len() + 1
                                && #[trigger] own_attrs(h, chain[j]).dom().contains(name),
                        forall|j: int|
                            0 <= j < i + 1 ==> !#[trigger] own_attrs(h, chain[j]).dom().contains(
                                name,
                            ),
                    decreases mro@.len() - i,
                {
                    if class_has_item(ctx, &mro[i], attr_name) {
                        proof {
                            assert(chain[i + 1] == mro@[i as int]);
                            assert(own_attrs(h, chain[i + 1]).dom().contains(name));
                        }
                        return true;
                    }
                    proof {
                        assert(chain[i + 1] == mro@[i as int]);
                    }
                    i = i + 1;
                }
                false
            },
            PyObjectPayload::Instance { dict } => dict.contains_key(attr_name),
            _ => false,
        }
    }
}

/// `pairs` holds the key object and value of each item of the `dict`
/// object `d` once, in some order of the keys.
pub open spec fn lists_pairs(
    h: Seq<PyObject>,
    d: PyObjectRef,
    pairs: Seq<(PyObjectRef, PyObjectRef)>,
) -> bool {
    exists|keys: Seq<Seq<char>>|
        #[trigger] lists_keys(keys, dict_map(h, d).dom()) && pairs == keys.map_values(
            |k: Seq<char>| dict_map(h, d)[k],
        )
}

/// The value of the item `k` of the `dict` object `d`.
fn dict_content_get(ctx: &PyContext, d: &PyObjectRef, k: &String) -> (r: Option<PyObjectRef>)
    requires
        ctx.wf(),
        is_dict(ctx.heap(), *d),
    ensures
        r == dict_value(ctx.heap(), *d, k@),
{
    proof {
        assert(obj_ok(ctx.heap(), d.id as int));
    }
    match &ctx.objects[d.id].payload {
        PyObjectPayload::Dict { elements } => match elements.get(k) {
            Some(entry) => Some(entry.1),
            None => None,
        },
        _ => None,
    }
}

/// The key objects and values of the `dict` object `d`, in entry order.
fn dict_content_pairs(ctx: &PyContext, d: &PyObjectRef) -> (r: Vec<(PyObjectRef, PyObjectRef)>)
    requires
        ctx.wf(),
        is_dict(ctx.heap(), *d),
    ensures
        r@ == dict_entries(ctx.heap(), *d).map_values(
            |e: (String, (PyObjectRef, PyObjectRef))| e.1,
        ),
        lists_pairs(ctx.heap(), *d, r@),
{
    proof {
        assert(obj_ok(ctx.heap(), d.id as int));
    }
    match &ctx.objects[d.id].payload {
        PyObjectPayload::Dict { elements } => {
            let r = elements.values();
            proof {
                let m = elements.map();
                assert(dict_map(ctx.heap(), *d) == m);
                let keys = choose|keys: Seq<Seq<char>>|
                    #[trigger] lists_keys(keys, m.dom()) && r@ == keys.map_values(
                        |k: Seq<char>| m[k],
                    );
                assert(r@ =~= keys.map_values(|k: Seq<char>| dict_map(ctx.heap(), *d)[k]));
            }
            r
        },
        _ => Vec::new(),
    }
}

/// Item access on `dict` objects and modules.
pub trait DictProtocol: ObjectHandle {
    fn contains_key(&self, ctx: &PyContext, k: &String) -> bool
        requires
            ctx.wf(),
            self.is_dict_in(ctx),
    ;

    fn get_item(&self, ctx: &PyContext, k: &String) -> Option<PyObjectRef>
        requires
            ctx.wf(),
            self.is_mapping_in(ctx),
    ;

    fn get_key_value_pairs(&self, ctx: &PyContext) -> Vec<(PyObjectRef, PyObjectRef)>
        requires
            ctx.wf(),
            self.is_mapping_in(ctx),
    ;

    fn set_item(&self, ctx: &mut PyContext, key: &str, v: PyObjectRef)
        requires
            old(ctx).wf(),
            self.is_mapping_in(old(ctx)),
            old(ctx).valid(v),
    ;
}

impl DictProtocol for PyObjectRef {
    fn contains_key(&self, ctx: &PyContext, k: &String) -> (r: bool)
        ensures
            r == dict_map(ctx.heap(), *self).dom().contains(k@),
    {
        proof {
            assert(obj_ok(ctx.heap(), self.id as int));
        }
        match &ctx.objects[self.id].payload {
            PyObjectPayload::Dict { elements } => elements.contains_key(k),
            _ => false,
        }
    }

    fn get_item(&self, ctx: &PyContext, k: &String) -> (r: Option<PyObjectRef>)
        ensures
            r == item_lookup(ctx.heap(), *self, k@),
    {
        proof {
            assert(obj_ok(ctx.heap(), self.id as int));
        }
        match &ctx.objects[self.id].payload {
            PyObjectPayload::Dict { .. } => dict_content_get(ctx, self, k),
            PyObjectPayload::Module { scope, .. } => dict_content_get(ctx, &scope.locals, k),
            _ => None,
        }
    }

    fn get_key_value_pairs(&self, ctx: &PyContext) -> (r: Vec<(PyObjectRef, PyObjectRef)>)
        ensures
            r@ == dict_entries(ctx.heap(), item_dict(ctx.heap(), *self)).map_values(
                |e: (String, (PyObjectRef, PyObjectRef))| e.1,
            ),
            lists_pairs(ctx.heap(), item_dict(ctx.heap(), *self), r@),
    {
        proof {
            assert(obj_ok(ctx.heap(), self.id as int));
        }
        match &ctx.objects[self.id].payload {
            PyObjectPayload::Dict { .. } => dict_content_pairs(ctx, self),
            PyObjectPayload::Module { scope, .. } => dict_content_pairs(ctx, &scope.locals),
            _ => Vec::new(),
        }
    }

    fn set_item(&self, ctx: &mut PyContext, key: &str, v: PyObjectRef)
        ensures
            final(ctx).wf(),
            final(ctx).dict_item_set(old(ctx), item_dict(old(ctx).heap(), *self), key@, v),
    {
        proof {
            assert(obj_ok(ctx.heap(), self.id as int));
        }
        let d = match &ctx.objects[self.id].payload {
            PyObjectPayload::Module { scope, .. } => scope.locals,
            _ => *self,
        };
        ctx.set_item(&d, key, v);
    }
}

/// Whether a bytes-like object is read-only.
pub trait BufferProtocol: ObjectHandle {
    fn readonly(&self, ctx: &PyContext) -> bool
        requires
            ctx.wf(),
            self.is_buffer_in(ctx),
    ;
}

impl BufferProtocol for PyObjectRef {
    /// `false` for an object of type `bytes`, `true` for one of type
    /// `bytearray` or `memoryview`.
    fn readonly(&self, ctx: &PyContext) -> (r: bool)
        ensures
            r == (type_name_of(ctx.heap(), *self) != "bytes"@),
    {
        let typ = self.typ(ctx);
        match &ctx.objects[typ.id].payload {
            PyObjectPayload::Class { name, .. } => {
                let bytes = String::from_str("bytes");
                !(*name == bytes)
            },
            _ => false,
        }
    }
}


/// A constant of compiled code.
#[allow(inconsistent_fields)]
pub enum Constant {
    Integer { value: PyInt },
    /// The IEEE-754 bits of the float.
    Float { value: u64 },
    /// The IEEE-754 bits of the real and the imaginary part.
    Complex { re: u64, im: u64 },
    Boolean { value: bool },
    String { value: String },
    Bytes { value: Vec<u8> },
    Tuple { elements: Vec<Constant> },
    Code { code: Box<CodeObject> },
    PyNone,
}

impl PyContext {
    /// `self` keeps every object of `old` and names the same built-in
    /// classes and constants.
    pub open spec fn grows_from(&self, old: &PyContext) -> bool {
        &&& self.same_fields(old)
        &&& old.heap().len() <= self.heap().len()
        &&& forall|j: int| 0 <= j < old.heap().len() ==> #[trigger] self.heap()[j] == old.heap()[j]
    }

    /// `r` is an object that stands for the constant `k`: an object of the
    /// constant's type with its value (for a code object, its name, file
    /// and first line), the shared `True`, `False` or `None` object, or a
    /// `tuple` of objects that stand for the elements.
    pub open spec fn represents(&self, r: PyObjectRef, k: Constant) -> bool
        decreases k,
    {
        &&& self.valid(r)
        &&& match k {
            Constant::Integer { value } => self.obj(r).typ == Some(self.int_type) && (self.obj(
                r,
            ).payload matches PyObjectPayload::Integer { value: v } && v@ == value@),
            Constant::Float { value } => self.obj(r).typ == Some(self.float_type)
                && self.obj(r).payload == (PyObjectPayload::Float { value }),
            Constant::Complex { re, im } => self.obj(r).typ == Some(self.complex_type)
                && self.obj(r).payload == (PyObjectPayload::Complex { re, im }),
            Constant::Boolean { value } => r == (if value {
                self.true_value
            } else {
                self.false_value
            }),
            Constant::String { value } => self.obj(r).typ == Some(self.str_type) && str_text(
                self.heap(),
                r,
            ) == Some(value@),
            Constant::Bytes { value } => self.obj(r).typ == Some(self.bytes_type) && (self.obj(
                r,
            ).payload matches PyObjectPayload::Bytes { value: v } && v@ == value@),
            Constant::Tuple { elements } => self.obj(r).typ == Some(self.tuple_type) && (self.obj(
                r,
            ).payload matches PyObjectPayload::Sequence { elements: es } && es@.len()
                == elements@.len() && forall|i: int|
                0 <= i < elements@.len() ==> self.represents(es@[i], #[trigger] elements@[i])),
            Constant::Code { code } => self.obj(r).typ == Some(self.code_type) && (self.obj(
                r,
            ).payload matches PyObjectPayload::Code { code: c } && same_code(c, *code)),
            Constant::PyNone => r == self.none,
        }
    }

    /// Law: an object that stands for a constant keeps standing for it as
    /// the context grows.
    pub proof fn law_constant_object_stable(&self, new: &PyContext, r: PyObjectRef, k: Constant)
        requires
            self.represents(r, k),
            new.grows_from(self),
        ensures
            new.represents(r, k),
        decreases k,
    {
        assert(new.heap()[r.id as int] == self.heap()[r.id as int]);
        match k {
            Constant::Tuple { elements } => {
                match self.obj(r).payload {
                    PyObjectPayload::Sequence { elements: es } => {
                        assert forall|i: int| 0 <= i < elements@.len() implies new.represents(
                            es@[i],
                            #[trigger] elements@[i],
                        ) by {
                            assert(decreases_to!(k => elements@[i]));
                            self.law_constant_object_stable(new, es@[i], elements@[i]);
                        }
                    },
                    _ => {},
                }
            },
            _ => {},
        }
    }

    /// A new `property` object whose `fget` attribute is a new built-in
    /// function object for `function`.
    pub fn new_property(&mut self, function: NativeFunction) -> (r: PyObjectRef)
        requires
            old(self).wf(),
        ensures
            final(self).wf(),
            final(self).grows_from(old(self)),
            final(self).heap().len() == old(self).heap().len() + 2,
            final(self).obj(PyObjectRef { id: old(self).heap().len() as usize }).payload == (
            PyObjectPayload::RustFunction { function }),
            final(self).obj(PyObjectRef { id: old(self).heap().len() as usize }).typ == Some(
                old(self).builtin_function_or_method_type,
            ),
            r.id == old(self).heap().len() + 1,
            final(self).obj(r).typ == Some(old(self).property_type),
            final(self).obj(r).payload is Instance,
            own_attrs(final(self).heap(), r) == map![
                "fget"@ => PyObjectRef { id: old(self).heap().len() as usize },
            ],
    {
        let fget = self.new_rustfunc(function);
        let typ = self.property_type();
        let py_obj = self.new_instance(typ, None);
        let ghost mid = *self;
        self.set_attr(&py_obj, "fget", fget);
        proof {
            assert(own_attrs(self.heap(), py_obj) =~= map!["fget"@ => fget]);
            assert(self.heap()[fget.id as int] == mid.heap()[fget.id as int]);
        }
        py_obj
    }

    /// A new `member_descriptor` object whose `function` attribute is a new
    /// built-in function object for `function`.
    pub fn new_member_descriptor(&mut self, function: NativeFunction) -> (r: PyObjectRef)
        requires
            old(self).wf(),
        ensures
            final(self).wf(),
            final(self).grows_from(old(self)),
            final(self).heap().len() == old(self).heap().len() + 2,
            final(self).obj(PyObjectRef { id: old(self).heap().len() as usize }).payload == (
            PyObjectPayload::RustFunction { function }),
            final(self).obj(PyObjectRef { id: old(self).heap().len() as usize }).typ == Some(
                old(self).builtin_function_or_method_type,
            ),
            r.id == old(self).heap().len() + 1,
            final(self).obj(r).typ == Some(old(self).member_descriptor_type),
            final(self).obj(r).payload is Instance,
            own_attrs(final(self).heap(), r) == map![
                "function"@ => PyObjectRef { id: old(self).heap().len() as usize },
            ],
    {
        let mut dict: PyAttributes = StrMap::new();
        let f = self.new_rustfunc(function);
        dict.insert(String::from_str("function"), f);
        proof {
            assert(dict.map() =~= map!["function"@ => f]);
        }
        let typ = self.member_descriptor_type();
        self.new_instance(typ, Some(dict))
    }

    /// The object for a constant of compiled code: a new object for a
    /// number, a string, bytes or a code object; the shared `True`, `False`
    /// or `None`; for a tuple, a new `tuple` of the objects for its
    /// elements.
    pub fn unwrap_constant(&mut self, value: &Constant) -> (r: PyObjectRef)
        requires
            old(self).wf(),
        ensures
            final(self).wf(),
            final(self).grows_from(old(self)),
            final(self).represents(r, *value),
        decreases value,
    {
        match value {
            Constant::Integer { value } => self.new_int(value.copy()),
            Constant::Float { value } => self.new_float(*value),
            Constant::Complex { re, im } => self.new_complex(*re, *im),
            Constant::String { value } => self.new_str(value.clone()),
            Constant::Bytes { value } => self.new_bytes(copy_bytes(value)),
            Constant::Boolean { value } => self.new_bool(*value),
            Constant::Tuple { elements } => {
                let ghost start = *self;
                let mut objs: Vec<PyObjectRef> = Vec::new();
                let mut i: usize = 0;
                while i < elements.len()
                    invariant
                        *value == (Constant::Tuple { elements: *elements }),
                        self.wf(),
                        self.grows_from(&start),
                        start.wf(),
                        i <= elements@.len(),
                        objs@.len() == i,
                        forall|j: int|
                            0 <= j < i ==> self.represents(objs@[j], #[trigger] elements@[j]),
                    decreases elements@.len() - i,
                {
                    let ghost before = *self;
                    proof {
                        assert(decreases_to!(*value => (*value)->elements));
                        assert(decreases_to!((*value)->elements => elements@));
                        assert(decreases_to!(elements@ => elements@[i as int]));
                        assert(decreases_to!(*value => elements@[i as int]));
                    }
                    let o = self.unwrap_constant(&elements[i]);
                    proof {
                        assert forall|j: int| 0 <= j < i implies self.represents(
                            objs@[j],
                            #[trigger] elements@[j],
                        ) by {
                            before.law_constant_object_stable(self, objs@[j], elements@[j]);
                        }
                    }
                    objs.push(o);
                    i = i + 1;
                }
                proof {
                    assert forall|j: int| 0 <= j < objs@.len() implies (#[trigger] objs@[j]).id
                        < self.heap().len() by {
                        assert(self.represents(objs@[j], elements@[j]));
                    }
                }
                let ghost before = *self;
                let ghost objs_view = objs@;
                let r = self.new_tuple(objs);
                proof {
                    assert forall|j: int| 0 <= j < objs_view.len() implies self.represents(
                        objs_view[j],
                        #[trigger] elements@[j],
                    ) by {
                        before.law_constant_object_stable(self, objs_view[j], elements@[j]);
                    }
                }
                r
            },
            Constant::Code { code } => self.new_code_object(code.copy()),
            Constant::PyNone => self.none(),
        }
    }
}

/// A copy of a byte vector.
pub fn copy_bytes(v: &Vec<u8>) -> (r: Vec<u8>)
    ensures
        r@ == v@,
{
    let mut r: Vec<u8> = Vec::new();
    let mut i: usize = 0;
    while i < v.len()
        invariant
            i <= v@.len(),
            r@ == v@.take(i as int),
        decreases v@.len() - i,
    {
        r.push(v[i]);
        i = i + 1;
        proof {
            assert(r@ =~= v@.take(i as int));
        }
    }
    proof {
        assert(v@.take(i as int) =~= v@);
    }
    r
}


/// The value of an `int` payload.
pub open spec fn int_of(h: Seq<PyObject>, r: PyObjectRef) -> Option<int> {
    match h[r.id as int].payload {
        PyObjectPayload::Integer { value } => Some(value@),
        _ => None,
    }
}

/// The bytes of a `bytes` or `bytearray` payload.
pub open spec fn bytes_of(h: Seq<PyObject>, r: PyObjectRef) -> Option<Seq<u8>> {
    match h[r.id as int].payload {
        PyObjectPayload::Bytes { value } => Some(value@),
        _ => None,
    }
}

/// The elements of a `tuple` or `list` payload.
pub open spec fn elements_of(h: Seq<PyObject>, r: PyObjectRef) -> Option<Seq<PyObjectRef>> {
    match h[r.id as int].payload {
        PyObjectPayload::Sequence { elements } => Some(elements@),
        _ => None,
    }
}

/// The state of a `socket` object.
pub open spec fn socket_of(h: Seq<PyObject>, r: PyObjectRef) -> Option<Socket> {
    match h[r.id as int].payload {
        PyObjectPayload::AnyRustValue { value: RustValue::Socket(s) } => Some(s),
        _ => None,
    }
}

impl PyContext {
    /// The value of an `int` object.
    pub fn get_int(&self, r: &PyObjectRef) -> (v: PyInt)
        requires
            self.valid(*r),
            int_of(self.heap(), *r) is Some,
        ensures
            v@ == int_of(self.heap(), *r)->0,
    {
        match &self.objects[r.id].payload {
            PyObjectPayload::Integer { value } => value.copy(),
            _ => PyInt::zero(),
        }
    }

    /// The bytes of a `bytes` or `bytearray` object.
    pub fn get_bytes(&self, r: &PyObjectRef) -> (v: Vec<u8>)
        requires
            self.valid(*r),
            bytes_of(self.heap(), *r) is Some,
        ensures
            v@ == bytes_of(self.heap(), *r)->0,
    {
        match &self.objects[r.id].payload {
            PyObjectPayload::Bytes { value } => copy_bytes(value),
            _ => Vec::new(),
        }
    }

    /// The text of a `str` object.
    pub fn get_str(&self, r: &PyObjectRef) -> (v: String)
        requires
            self.valid(*r),
            str_text(self.heap(), *r) is Some,
        ensures
            v@ == str_text(self.heap(), *r)->0,
    {
        match &self.objects[r.id].payload {
            PyObjectPayload::AnyRustValue { value: RustValue::Str(s) } => s.clone(),
            _ => String::new(),
        }
    }

    /// The elements of a `tuple` or `list` object.
    pub fn get_elements(&self, r: &PyObjectRef) -> (v: Vec<PyObjectRef>)
        requires
            self.wf(),
            self.valid(*r),
            elements_of(self.heap(), *r) is Some,
        ensures
            v@ == elements_of(self.heap(), *r)->0,
            refs_ok(v@, self.heap().len()),
    {
        proof {
            assert(obj_ok(self.heap(), r.id as int));
        }
        let mut v: Vec<PyObjectRef> = Vec::new();
        match &self.objects[r.id].payload {
            PyObjectPayload::Sequence { elements } => {
                let mut i: usize = 0;
                while i < elements.len()
                    invariant
                        i <= elements@.len(),
                        v@ == elements@.take(i as int),
                    decreases elements@.len() - i,
                {
                    v.push(elements[i]);
                    i = i + 1;
                    proof {
                        assert(v@ =~= elements@.take(i as int));
                    }
                }
                proof {
                    assert(elements@.take(i as int) =~= elements@);
                }
            },
            _ => {},
        }
        v
    }

    /// The state of a `socket` object.
    pub fn get_socket(&self, r: &PyObjectRef) -> (s: Socket)
        requires
            self.valid(*r),
            socket_of(self.heap(), *r) is Some,
        ensures
            s == socket_of(self.heap(), *r)->0,
    {
        match &self.objects[r.id].payload {
            PyObjectPayload::AnyRustValue { value: RustValue::Socket(s) } => *s,
            _ => Socket::new(crate::socket::AddressFamily::Unix, crate::socket::SocketKind::Stream),
        }
    }

    /// `self` is `old` with the object `r` changed in its payload only.
    pub open spec fn socket_updated(&self, old: &PyContext, r: PyObjectRef) -> bool {
        &&& self.extends(old)
        &&& self.heap().len() == old.heap().len()
        &&& self.obj(r).typ == old.obj(r).typ
        &&& forall|j: int|
            0 <= j < old.heap().len() && j != r.id ==> #[trigger] self.heap()[j] == old.heap()[j]
    }

    /// Law: replacing the state of one socket object leaves every other
    /// object, and so the state of every other socket, as it was.
    pub proof fn law_socket_update_is_local(before: &PyContext, after: &PyContext, r: PyObjectRef, q: PyObjectRef)
        requires
            after.socket_updated(before, r),
            before.valid(q),
            q.id != r.id,
        ensures
            after.obj(q) == before.obj(q),
            socket_of(after.heap(), q) == socket_of(before.heap(), q),
    {
        assert(after.heap()[q.id as int] == before.heap()[q.id as int]);
    }

    /// Replaces the state of a `socket` object.
    pub fn set_socket(&mut self, r: &PyObjectRef, s: Socket)
        requires
            old(self).wf(),
            old(self).valid(*r),
            socket_of(old(self).heap(), *r) is Some,
        ensures
            final(self).wf(),
            final(self).socket_updated(old(self), *r),
            socket_of(final(self).heap(), *r) == Some(s),
    {
        let ghost h0 = self.objects@;
        let typ = self.objects[r.id].typ;
        let new_o = PyObject {
            payload: PyObjectPayload::AnyRustValue { value: RustValue::Socket(s) },
            typ,
        };
        proof {
            assert(obj_ok(h0, r.id as int));
            lemma_update_ok(h0, r.id as int, new_o);
        }
        self.objects.set(r.id, new_o);
        proof {
            PyContext::lemma_fields_kept(old(self), self);
        }
    }
}

} // verus!
