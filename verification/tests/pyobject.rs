use rustpython_vm::args::{
    arg_check, arg_error_message, ArgCheckError, ArgError, Args, KwArgs, OptArg, PyFuncArgs,
};
use rustpython_vm::bigint::PyInt;
use rustpython_vm::display::{bytes_debug, u8_decimal, usize_decimal, DebugPart};
use rustpython_vm::iter::{IterError, PyIterable, PyIterator};
use rustpython_vm::object::{
    AttributeProtocol, BufferProtocol, CodeObject, Constant, DictProtocol, IdProtocol, PyContext, PyObjectPayload,
    PyObjectRef, TypeProtocol,
};
use rustpython_vm::strmap::StrMap;

fn texts(parts: &[DebugPart]) -> Vec<String> {
    parts
        .iter()
        .map(|p| match p {
            DebugPart::Text(s) => s.clone(),
            DebugPart::Float(bits) => format!("float bits {}", bits),
            DebugPart::Complex(re, im) => format!("complex bits {} {}", re, im),
        })
        .collect()
}

fn int_value(ctx: &PyContext, r: &PyObjectRef) -> String {
    ctx.get_int(r).to_decimal_string()
}

#[test]
fn test_type_type() {
    PyContext::new();
}

#[test]
fn new_context_types_are_classes_of_type_type() {
    let ctx = PyContext::new();
    let type_type = ctx.type_type();
    assert_eq!(type_type.typ(&ctx), type_type);
    assert_eq!(ctx.object().typ(&ctx), type_type);
    assert_eq!(ctx.int_type().typ(&ctx), type_type);
    let int_type = ctx.int_type();
    match &ctx.get_object(int_type).payload {
        PyObjectPayload::Class { name, .. } => assert_eq!(name, "int"),
        _ => panic!("int is not a class"),
    }
    assert_eq!(ctx.get_object(int_type).to_string(&ctx), "type object 'int'");
    assert_eq!(ctx.get_object(ctx.none()).to_string(&ctx), "'NoneType' object");
}

#[test]
fn new_bool_gives_the_shared_objects() {
    let ctx = PyContext::new();
    let t1 = ctx.new_bool(true);
    let t2 = ctx.new_bool(true);
    let f = ctx.new_bool(false);
    assert!(t1.is(&t2));
    assert!(!t1.is(&f));
    assert_eq!(t1.typ(&ctx), ctx.bool_type());
}

#[test]
fn int_objects_describe_their_value() {
    let mut ctx = PyContext::new();
    let r = ctx.new_int(PyInt::from_i64(-42));
    assert_eq!(r.typ(&ctx), ctx.int_type());
    assert_eq!(int_value(&ctx, &r), "-42");
    assert_eq!(texts(&ctx.debug_object(r)), vec!["[PyObj ", "int -42", "]"]);
}

#[test]
fn class_payload_debug_quotes_the_name() {
    let ctx = PyContext::new();
    let parts = ctx.debug_payload(ctx.str_type());
    assert_eq!(texts(&parts), vec!["class \"str\""]);
}

#[test]
fn float_and_complex_descriptions_carry_the_bits() {
    let mut ctx = PyContext::new();
    let bits = 1.5f64.to_bits();
    let f = ctx.new_float(bits);
    let c = ctx.new_complex(0, bits);
    assert_eq!(texts(&ctx.debug_payload(f)), vec!["float ".to_string(), format!("float bits {}", bits)]);
    assert_eq!(
        texts(&ctx.debug_payload(c)),
        vec!["complex ".to_string(), format!("complex bits 0 {}", bits)]
    );
}

#[test]
fn bytes_debug_lists_the_bytes() {
    assert_eq!(bytes_debug(&vec![1, 2, 255]), "RefCell { value: [1, 2, 255] }");
    assert_eq!(bytes_debug(&vec![]), "RefCell { value: [] }");
    let mut ctx = PyContext::new();
    let b = ctx.new_bytes(vec![0, 10]);
    assert_eq!(texts(&ctx.debug_payload(b)), vec!["bytes/bytearray RefCell { value: [0, 10] }"]);
}

#[test]
fn u8_decimal_edges() {
    assert_eq!(u8_decimal(0), "0");
    assert_eq!(u8_decimal(7), "7");
    assert_eq!(u8_decimal(42), "42");
    assert_eq!(u8_decimal(100), "100");
    assert_eq!(u8_decimal(255), "255");
}

#[test]
fn big_integers_convert() {
    assert_eq!(PyInt::from_i64(i64::MIN).to_decimal_string(), "-9223372036854775808");
    assert_eq!(PyInt::from_i64(i64::MAX).to_decimal_string(), "9223372036854775807");
    assert_eq!(PyInt::from_i64(0).to_decimal_string(), "0");
    assert_eq!(PyInt::zero().to_decimal_string(), "0");
    assert_eq!(PyInt::one().to_decimal_string(), "1");
    assert_eq!(PyInt::from_i64(-5).to_i32(), Some(-5));
    assert_eq!(PyInt::from_i64(2147483647).to_i32(), Some(2147483647));
    assert_eq!(PyInt::from_i64(2147483648).to_i32(), None);
    assert_eq!(PyInt::from_i64(-2147483649).to_i32(), None);
    assert_eq!(PyInt::from_i64(7).to_usize(), Some(7));
    assert_eq!(PyInt::from_i64(-1).to_usize(), None);
    assert_eq!(PyInt::from_i64(-7).copy().to_decimal_string(), "-7");
}

#[test]
fn set_attr_then_get_attr_on_an_instance() {
    let mut ctx = PyContext::new();
    let object = ctx.object();
    let inst = ctx.new_instance(object, None);
    let v = ctx.new_int(PyInt::from_i64(3));
    let name = String::from("x");
    assert!(!inst.has_attr(&ctx, &name));
    assert_eq!(ctx.get_attr(&inst, "x"), None);
    ctx.set_attr(&inst, "x", v);
    assert!(inst.has_attr(&ctx, &name));
    assert_eq!(ctx.get_attr(&inst, "x"), Some(v));
    assert_eq!(inst.get_attr(&ctx, &name), Some(v));
    let w = ctx.new_int(PyInt::from_i64(4));
    ctx.set_attr(&inst, "x", w);
    assert_eq!(ctx.get_attr(&inst, "x"), Some(w));
}

#[test]
fn class_attributes_are_found_through_the_bases() {
    let mut ctx = PyContext::new();
    let object = ctx.object();
    let a = ctx.new_class("A", object);
    let b = ctx.new_class("B", a);
    let f = ctx.new_int(PyInt::from_i64(1));
    ctx.set_attr(&a, "f", f);
    assert_eq!(ctx.get_attr(&b, "f"), Some(f));
    assert!(b.has_attr(&ctx, &String::from("f")));
    let g = ctx.new_int(PyInt::from_i64(2));
    ctx.set_attr(&b, "f", g);
    assert_eq!(ctx.get_attr(&b, "f"), Some(g));
    assert_eq!(ctx.get_attr(&a, "f"), Some(f));
    let inst = ctx.new_instance(b, None);
    assert!(ctx.isinstance(&inst, &b));
    assert!(ctx.isinstance(&inst, &a));
    assert!(ctx.isinstance(&inst, &object));
    assert!(!ctx.isinstance(&inst, &ctx.int_type()));
    assert_eq!(ctx.get_object(inst).to_string(&ctx), "'B' object");
}

#[test]
fn module_attributes_live_in_its_locals() {
    let mut ctx = PyContext::new();
    let scope = ctx.new_scope(None);
    let locals = scope.locals;
    let m = ctx.new_module("mod", scope);
    let v = ctx.new_int(PyInt::from_i64(5));
    ctx.set_attr(&m, "answer", v);
    assert_eq!(ctx.get_attr(&m, "answer"), Some(v));
    assert_eq!(m.get_item(&ctx, &String::from("answer")), Some(v));
    assert!(locals.contains_key(&ctx, &String::from("answer")));
    assert_eq!(ctx.get_object(m).to_string(&ctx), "module 'mod'");
}

#[test]
fn dict_items_set_and_read() {
    let mut ctx = PyContext::new();
    let d = ctx.new_dict();
    let one = ctx.new_int(PyInt::from_i64(1));
    let two = ctx.new_int(PyInt::from_i64(2));
    let a = String::from("a");
    assert!(!d.contains_key(&ctx, &a));
    assert_eq!(d.get_item(&ctx, &a), None);
    d.set_item(&mut ctx, "a", one);
    d.set_item(&mut ctx, "b", two);
    assert!(d.contains_key(&ctx, &a));
    assert_eq!(d.get_item(&ctx, &a), Some(one));
    d.set_item(&mut ctx, "a", two);
    assert_eq!(d.get_item(&ctx, &a), Some(two));
    let mut pairs: Vec<(String, PyObjectRef)> = d
        .get_key_value_pairs(&ctx)
        .iter()
        .map(|(k, v)| (ctx.get_str(k), *v))
        .collect();
    pairs.sort_by(|x, y| x.0.cmp(&y.0));
    assert_eq!(pairs, vec![(String::from("a"), two), (String::from("b"), two)]);
}

#[test]
fn bytes_are_read_only_and_bytearrays_are_not() {
    let mut ctx = PyContext::new();
    let b = ctx.new_bytes(vec![1]);
    let ba = ctx.new_bytearray(vec![1]);
    assert!(!b.readonly(&ctx));
    assert!(ba.readonly(&ctx));
    assert_eq!(ctx.get_bytes(&b), vec![1]);
}

#[test]
fn constants_become_objects() {
    let mut ctx = PyContext::new();
    let i = ctx.unwrap_constant(&Constant::Integer { value: PyInt::from_i64(12) });
    assert_eq!(i.typ(&ctx), ctx.int_type());
    assert_eq!(int_value(&ctx, &i), "12");
    let t = ctx.unwrap_constant(&Constant::Boolean { value: true });
    assert!(t.is(&ctx.new_bool(true)));
    let n = ctx.unwrap_constant(&Constant::PyNone);
    assert!(n.is(&ctx.none()));
    let s = ctx.unwrap_constant(&Constant::String { value: String::from("hi") });
    assert_eq!(ctx.get_str(&s), "hi");
    let tup = ctx.unwrap_constant(&Constant::Tuple {
        elements: vec![Constant::Integer { value: PyInt::from_i64(1) }, Constant::Boolean { value: false }],
    });
    assert_eq!(tup.typ(&ctx), ctx.tuple_type());
    let elements = ctx.get_elements(&tup);
    assert_eq!(elements.len(), 2);
    assert_eq!(int_value(&ctx, &elements[0]), "1");
    assert!(elements[1].is(&ctx.new_bool(false)));
}

#[test]
fn func_args_new_takes_keywords_from_the_end() {
    let mut ctx = PyContext::new();
    let a = ctx.new_int(PyInt::from_i64(1));
    let b = ctx.new_int(PyInt::from_i64(2));
    let c = ctx.new_int(PyInt::from_i64(3));
    let d = ctx.new_int(PyInt::from_i64(4));
    let args = PyFuncArgs::new(vec![a, b, c, d], vec![String::from("x"), String::from("y")]);
    assert_eq!(args.args, vec![a, b]);
    assert_eq!(args.kwargs.len(), 2);
    assert_eq!(args.kwargs[0], (String::from("y"), d));
    assert_eq!(args.kwargs[1], (String::from("x"), c));
    assert_eq!(args.get_optional_kwarg("x"), Some(c));
    assert_eq!(args.get_optional_kwarg("z"), None);
    assert_eq!(args.get_kwarg("z", a), a);
    assert_eq!(args.get_kwarg("y", a), d);
}

#[test]
fn insert_then_shift_restores_the_arguments() {
    let mut ctx = PyContext::new();
    let a = ctx.new_int(PyInt::from_i64(1));
    let b = ctx.new_int(PyInt::from_i64(2));
    let z = ctx.new_int(PyInt::from_i64(0));
    let args = PyFuncArgs::new(vec![a, b], vec![]);
    let mut inserted = args.insert(z);
    assert_eq!(inserted.args, vec![z, a, b]);
    assert_eq!(inserted.shift(), z);
    assert_eq!(inserted.args, args.args);
}

#[test]
fn keyword_argument_of_the_wrong_type_is_refused() {
    let mut ctx = PyContext::new();
    let s = ctx.new_str(String::from("text"));
    let args = PyFuncArgs::new(vec![s], vec![String::from("k")]);
    let str_type = ctx.str_type();
    let int_type = ctx.int_type();
    assert!(matches!(args.get_optional_kwarg_with_type(&ctx, "k", str_type), Ok(Some(v)) if v == s));
    assert!(matches!(args.get_optional_kwarg_with_type(&ctx, "other", int_type), Ok(None)));
    match args.get_optional_kwarg_with_type(&ctx, "k", int_type) {
        Err(ArgError::WrongKwargType { key, expected, actual }) => {
            assert_eq!(key, "k");
            assert_eq!(expected, int_type);
            assert_eq!(actual, str_type);
        }
        _ => panic!("expected a keyword type error"),
    }
}

#[test]
fn binding_positional_parameters() {
    let mut ctx = PyContext::new();
    let a = ctx.new_int(PyInt::from_i64(1));
    let b = ctx.new_int(PyInt::from_i64(2));
    let two = PyFuncArgs::new(vec![a, b], vec![]);
    assert!(matches!(PyFuncArgs::new(vec![a, b], vec![]).bind::<(PyObjectRef, PyObjectRef)>(), Ok((x, y)) if x == a && y == b));
    assert!(matches!(PyFuncArgs::new(vec![a, b], vec![]).bind::<(PyObjectRef,)>(), Err(ArgError::TooManyArgs)));
    assert!(matches!(
        PyFuncArgs::new(vec![a, b], vec![]).bind::<(PyObjectRef, PyObjectRef, PyObjectRef)>(),
        Err(ArgError::NotEnoughArgs)
    ));
    match PyFuncArgs::new(vec![a, b], vec![]).bind::<(PyObjectRef, OptArg<PyObjectRef>, OptArg<PyObjectRef>)>() {
        Ok((x, y, z)) => {
            assert_eq!(x, a);
            assert_eq!(*y.deref(), Some(b));
            assert_eq!(*z.deref(), None);
        }
        Err(_) => panic!("optional parameters bind"),
    }
    match two.bind::<(Args<PyObjectRef>,)>() {
        Ok((Args(all),)) => assert_eq!(all, vec![a, b]),
        Err(_) => panic!("Args binds"),
    }
}

#[test]
fn binding_keyword_parameters() {
    let mut ctx = PyContext::new();
    let a = ctx.new_int(PyInt::from_i64(1));
    let k = ctx.new_int(PyInt::from_i64(2));
    let args = PyFuncArgs::new(vec![a, k], vec![String::from("key")]);
    match args.bind::<(PyObjectRef, KwArgs<PyObjectRef>)>() {
        Ok((x, KwArgs(map))) => {
            assert_eq!(x, a);
            assert_eq!(map.len(), 1);
            assert_eq!(map.get(&String::from("key")), Some(k));
        }
        Err(_) => panic!("keyword arguments bind"),
    }
    let only_kw = PyFuncArgs::new(vec![k], vec![String::from("key")]);
    assert!(matches!(only_kw.bind::<(PyObjectRef,)>(), Err(ArgError::NotEnoughArgs)));
}

#[test]
fn binding_four_and_five_parameters() {
    let mut ctx = PyContext::new();
    let v: Vec<PyObjectRef> = (0..5).map(|i| ctx.new_int(PyInt::from_i64(i))).collect();
    let args = PyFuncArgs::new(v.clone(), vec![]);
    match args.bind::<(PyObjectRef, PyObjectRef, PyObjectRef, PyObjectRef, PyObjectRef)>() {
        Ok((a, b, c, d, e)) => assert_eq!(vec![a, b, c, d, e], v),
        Err(_) => panic!("five parameters bind"),
    }
    let args = PyFuncArgs::new(v.clone(), vec![]);
    assert!(matches!(
        args.bind::<(PyObjectRef, PyObjectRef, PyObjectRef, PyObjectRef)>(),
        Err(ArgError::TooManyArgs)
    ));
}

#[test]
fn arg_check_counts_and_types() {
    let mut ctx = PyContext::new();
    let i = ctx.new_int(PyInt::from_i64(1));
    let s = ctx.new_str(String::from("s"));
    let int_type = ctx.int_type();
    let str_type = ctx.str_type();
    assert!(arg_check(&ctx, &vec![i, s], &vec![Some(int_type), None]).is_ok());
    assert_eq!(
        arg_check(&ctx, &vec![i], &vec![Some(int_type), None]),
        Err(ArgCheckError::WrongCount { expected: 2, got: 1 })
    );
    assert_eq!(
        arg_check(&ctx, &vec![i, s], &vec![None, Some(int_type)]),
        Err(ArgCheckError::WrongType { index: 1, expected: int_type, actual: str_type })
    );
}

#[test]
fn iterator_steps() {
    let mut ctx = PyContext::new();
    let object = ctx.object();
    let stop = ctx.new_class("StopIteration", object);
    let other = ctx.new_class("ValueError", object);
    let stop_exc = ctx.new_instance(stop, None);
    let other_exc = ctx.new_instance(other, None);
    let method = ctx.new_int(PyInt::from_i64(0));
    let iterable = PyIterable::new(method);
    let (m, call) = iterable.iter();
    assert_eq!(m, method);
    assert!(call.args.is_empty() && call.kwargs.is_empty());
    assert!(matches!(PyIterable::try_from_object(Ok(method)), Ok(it) if it.method == method));
    assert!(matches!(PyIterable::try_from_object(Err(other_exc)), Err(e) if e == other_exc));
    let iterator_obj = ctx.new_instance(object, None);
    assert!(matches!(PyIterable::start(Err(other_exc)), Err(e) if e == other_exc));
    let it = PyIterable::start(Ok(iterator_obj)).ok().unwrap();
    assert_eq!(it.obj, iterator_obj);
    let (target, name, args) = it.next_call();
    assert_eq!(target, iterator_obj);
    assert_eq!(name, "__next__");
    assert!(args.is_empty());
    let v = ctx.new_int(PyInt::from_i64(9));
    assert!(matches!(it.next::<PyObjectRef>(&ctx, Ok(v), &stop), Some(Ok(x)) if x == v));
    assert!(it.next::<PyObjectRef>(&ctx, Err(stop_exc), &stop).is_none());
    assert!(matches!(
        it.next::<PyObjectRef>(&ctx, Err(other_exc), &stop),
        Some(Err(IterError::Raised(e))) if e == other_exc
    ));
    let direct = PyIterator::new(iterator_obj);
    assert_eq!(direct.obj, iterator_obj);
}

#[test]
fn str_maps_keep_the_last_value() {
    let mut m: StrMap<u32> = StrMap::new();
    m.insert(String::from("a"), 1);
    m.insert(String::from("b"), 2);
    m.insert(String::from("a"), 3);
    assert_eq!(m.len(), 2);
    assert_eq!(m.get(&String::from("a")), Some(3));
    assert!(m.contains_key(&String::from("b")));
    let mut values = m.values();
    values.sort();
    assert_eq!(values, vec![2, 3]);
}

#[test]
fn code_constants_become_code_objects() {
    let mut ctx = PyContext::new();
    let code = CodeObject {
        obj_name: String::from("f"),
        source_path: String::from("m.py"),
        first_line_number: 12,
    };
    let r = ctx.unwrap_constant(&Constant::Code { code: Box::new(code) });
    assert_eq!(r.typ(&ctx), ctx.code_type());
    match &ctx.get_object(r).payload {
        PyObjectPayload::Code { code } => {
            assert_eq!(code.obj_name, "f");
            assert_eq!(code.source_path, "m.py");
            assert_eq!(code.first_line_number, 12);
        }
        _ => panic!("expected a code object"),
    }
    assert_eq!(
        texts(&ctx.debug_payload(r)),
        vec!["code: <code object f at ??? file \"m.py\", line 12>"]
    );
    let direct = ctx.new_code_object(CodeObject {
        obj_name: String::from("g"),
        source_path: String::from("n.py"),
        first_line_number: 0,
    });
    assert_eq!(direct.typ(&ctx), ctx.code_type());
}

#[test]
fn usize_decimal_edges() {
    assert_eq!(usize_decimal(0), "0");
    assert_eq!(usize_decimal(9), "9");
    assert_eq!(usize_decimal(10), "10");
    assert_eq!(usize_decimal(usize::MAX), usize::MAX.to_string());
}

#[test]
fn argument_error_messages() {
    assert_eq!(arg_error_message(&ArgError::NotEnoughArgs, "", ""), "not enough args");
    assert_eq!(arg_error_message(&ArgError::TooManyArgs, "", ""), "too many args");
    let ctx = PyContext::new();
    let e = ArgError::WrongKwargType {
        key: String::from("flags"),
        expected: ctx.int_type(),
        actual: ctx.str_type(),
    };
    assert_eq!(
        arg_error_message(&e, "<class 'int'>", "<class 'str'>"),
        "argument of type <class 'int'> is required for named parameter `flags` (got: <class 'str'>)"
    );
}

#[test]
fn true_and_false_are_distinct_objects() {
    let ctx = PyContext::new();
    assert!(!ctx.new_bool(true).is(&ctx.new_bool(false)));
    assert!(ctx.new_bool(false).is(&ctx.new_bool(false)));
}
