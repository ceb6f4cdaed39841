use vstd::prelude::*;
use crate::object::{is_class, class_mro, PyContext, PyObjectRef, TypeProtocol};
use crate::strmap::StrMap;

verus! {

/// One argument of a call: positional, or a keyword argument with its name.
pub enum PyArg {
    Positional(PyObjectRef),
    Keyword(String, PyObjectRef),
}

/// The errors of argument binding, all raised as `TypeError`.
pub enum ArgError {
    /// `TypeError("not enough args")`
    NotEnoughArgs,
    /// `TypeError("too many args")`
    TooManyArgs,
    /// `TypeError("argument of type <expected> is required for named parameter
    /// `<key>` (got: <actual>)")`, with the expected class and the class of the
    /// argument.
    WrongKwargType { key: String, expected: PyObjectRef, actual: PyObjectRef },
}

/// The message of an argument-binding error, where `expected` and
/// `actual` are the texts of the expected class and of the argument's
/// class.
pub open spec fn arg_error_text(e: ArgError, expected: Seq<char>, actual: Seq<char>) -> Seq<char> {
    match e {
        ArgError::NotEnoughArgs => "not enough args"@,
        ArgError::TooManyArgs => "too many args"@,
        ArgError::WrongKwargType { key, .. } => "argument of type "@ + expected
            + " is required for named parameter `"@ + key@ + "` (got: "@ + actual + ")"@,
    }
}

/// The message of an argument-binding error, given the `str` of the
/// expected class and of the argument's class, which only a keyword of the
/// wrong type uses.
pub fn arg_error_message(e: &ArgError, expected: &str, actual: &str) -> (r: String)
    ensures
        r@ == arg_error_text(*e, expected@, actual@),
{
    match e {
        ArgError::NotEnoughArgs => String::from_str("not enough args"),
        ArgError::TooManyArgs => String::from_str("too many args"),
        ArgError::WrongKwargType { key, .. } => {
            let mut r = String::from_str("argument of type ");
            r.append(expected);
            r.append(" is required for named parameter `");
            r.append(key.as_str());
            r.append("` (got: ");
            r.append(actual);
            r.append(")");
            r
        },
    }
}

/// The object that an argument passes.
pub open spec fn arg_value(a: PyArg) -> PyObjectRef {
    match a {
        PyArg::Positional(v) => v,
        PyArg::Keyword(_, v) => v,
    }
}

/// The first position at or after `pos` that holds a keyword argument, or
/// the end.
pub open spec fn next_keyword(args: Seq<PyArg>, pos: int) -> int
    decreases args.len() - pos,
{
    if pos >= args.len() {
        args.len() as int
    } else if args[pos] is Keyword {
        pos
    } else {
        next_keyword(args, pos + 1)
    }
}

/// The first position at or after `pos` that holds a positional argument,
/// or the end.
pub open spec fn next_positional(args: Seq<PyArg>, pos: int) -> int
    decreases args.len() - pos,
{
    if pos >= args.len() {
        args.len() as int
    } else if args[pos] is Positional {
        pos
    } else {
        next_positional(args, pos + 1)
    }
}

/// Where reading stops after a run that ends at `k`: the argument at `k`,
/// which ended the run, is taken too.
pub open spec fn after_run(args: Seq<PyArg>, k: int) -> int {
    if k < args.len() {
        k + 1
    } else {
        args.len() as int
    }
}

/// The map that keyword arguments give, a later one for a name taking the
/// place of an earlier one.
pub open spec fn keyword_map(s: Seq<PyArg>) -> Map<Seq<char>, PyObjectRef>
    decreases s.len(),
{
    if s.len() == 0 {
        Map::empty()
    } else {
        match s.last() {
            PyArg::Keyword(name, v) => keyword_map(s.drop_last()).insert(name@, v),
            PyArg::Positional(_) => keyword_map(s.drop_last()),
        }
    }
}

/// The arguments of a call in the order in which they are bound: the
/// positional ones, then the keyword ones.
pub open spec fn arg_stream(args: Seq<PyObjectRef>, kwargs: Seq<(String, PyObjectRef)>) -> Seq<
    PyArg,
> {
    args.map_values(|v: PyObjectRef| PyArg::Positional(v)) + kwargs.map_values(
        |kv: (String, PyObjectRef)| PyArg::Keyword(kv.0, kv.1),
    )
}

/// The first keyword argument with the given name.
pub open spec fn kwarg_lookup(kwargs: Seq<(String, PyObjectRef)>, key: Seq<char>) -> Option<
    PyObjectRef,
>
    decreases kwargs.len(),
{
    if kwargs.len() == 0 {
        None
    } else if kwargs[0].0@ == key {
        Some(kwargs[0].1)
    } else {
        kwarg_lookup(kwargs.drop_first(), key)
    }
}

/// Conversion of an argument object into a parameter value.
pub trait TryFromObject: Sized {
    /// Converting `obj` gives `r`.
    spec fn converts(ctx: &PyContext, obj: PyObjectRef, r: Result<Self, ArgError>) -> bool;

    fn try_from_object(ctx: &PyContext, obj: PyObjectRef) -> (r: Result<Self, ArgError>)
        ensures
            Self::converts(ctx, obj, r),
    ;
}

impl TryFromObject for PyObjectRef {
    /// The object itself.
    open spec fn converts(ctx: &PyContext, obj: PyObjectRef, r: Result<Self, ArgError>) -> bool {
        r == Ok::<PyObjectRef, ArgError>(obj)
    }

    fn try_from_object(ctx: &PyContext, obj: PyObjectRef) -> (r: Result<Self, ArgError>) {
        Ok(obj)
    }
}

/// Conversion of a native function's result into an object.
pub trait IntoPyObject {
    fn into_pyobject(self, ctx: &PyContext) -> Result<PyObjectRef, PyObjectRef>;
}

impl IntoPyObject for PyObjectRef {
    /// The object itself.
    fn into_pyobject(self, ctx: &PyContext) -> (r: Result<PyObjectRef, PyObjectRef>)
        ensures
            r == Ok::<PyObjectRef, PyObjectRef>(self),
    {
        Ok(self)
    }
}

impl IntoPyObject for () {
    /// `None`.
    fn into_pyobject(self, ctx: &PyContext) -> (r: Result<PyObjectRef, PyObjectRef>)
        ensures
            r == Ok::<PyObjectRef, PyObjectRef>(ctx.none),
    {
        Ok(ctx.none())
    }
}

impl IntoPyObject for Result<PyObjectRef, PyObjectRef> {
    /// The object, or the exception, as it is.
    fn into_pyobject(self, ctx: &PyContext) -> (r: Result<PyObjectRef, PyObjectRef>)
        ensures
            r == self,
    {
        match self {
            Ok(res) => res.into_pyobject(ctx),
            Err(e) => Err(e),
        }
    }
}

/// A parameter, or a group of parameters, bound from the arguments of a
/// call, read from a position onwards.
pub trait FromArgs: Sized {
    /// Where reading from position `pos` of `args` stops, or the error that
    /// it gives: one answer for each arguments and position.
    spec fn outcome(args: Seq<PyArg>, pos: int) -> Result<int, ArgError>;

    /// Reading from position `pos` of `args` gives `r`: the value and the
    /// position after what was read, or an error.
    spec fn binds(args: Seq<PyArg>, pos: int, r: Result<(Self, int), ArgError>) -> bool;

    fn from_args(args: &Vec<PyArg>, pos: usize) -> (r: Result<(Self, usize), ArgError>)
        requires
            pos <= args@.len(),
        ensures
            Self::binds(
                args@,
                pos as int,
                match r {
                    Ok((v, p)) => Ok((v, p as int)),
                    Err(e) => Err(e),
                },
            ),
            r matches Ok((_, p)) ==> pos <= p <= args@.len(),
            Self::outcome(args@, pos as int) == match r {
                Ok((_, p)) => Ok::<int, ArgError>(p as int),
                Err(e) => Err(e),
            },
    ;
}

impl FromArgs for PyObjectRef {
    open spec fn outcome(args: Seq<PyArg>, pos: int) -> Result<int, ArgError> {
        if pos < args.len() && args[pos] is Positional {
            Ok(pos + 1)
        } else {
            Err(ArgError::NotEnoughArgs)
        }
    }

    /// One positional argument; a keyword argument or the end is an error.
    open spec fn binds(args: Seq<PyArg>, pos: int, r: Result<(Self, int), ArgError>) -> bool {
        if pos < args.len() && args[pos] is Positional {
            r == Ok::<(PyObjectRef, int), ArgError>((arg_value(args[pos]), pos + 1))
        } else {
            r is Err && r->Err_0 is NotEnoughArgs
        }
    }

    fn from_args(args: &Vec<PyArg>, pos: usize) -> (r: Result<(Self, usize), ArgError>) {
        if pos < args.len() {
            match &args[pos] {
                PyArg::Positional(v) => Ok((*v, pos + 1)),
                PyArg::Keyword(_, _) => Err(ArgError::NotEnoughArgs),
            }
        } else {
            Err(ArgError::NotEnoughArgs)
        }
    }
}

/// Any number of positional arguments.
pub struct Args<T>(pub Vec<T>);

impl FromArgs for Args<PyObjectRef> {
    open spec fn outcome(args: Seq<PyArg>, pos: int) -> Result<int, ArgError> {
        Ok(after_run(args, next_keyword(args, pos)))
    }

    /// The positional arguments up to the next keyword argument; that
    /// keyword argument is read too, and dropped.
    open spec fn binds(args: Seq<PyArg>, pos: int, r: Result<(Self, int), ArgError>) -> bool {
        let k = next_keyword(args, pos);
        &&& r is Ok
        &&& r->Ok_0.0.0@ == args.subrange(pos, k).map_values(|a: PyArg| arg_value(a))
        &&& r->Ok_0.1 == after_run(args, k)
    }

    fn from_args(args: &Vec<PyArg>, pos: usize) -> (r: Result<(Self, usize), ArgError>) {
        let mut varargs: Vec<PyObjectRef> = Vec::new();
        let mut i = pos;
        let ghost k = next_keyword(args@, pos as int);
        proof {
            lemma_next_keyword(args@, pos as int);
        }
        while i < args.len()
            invariant
                pos <= i <= k,
                k == next_keyword(args@, pos as int),
                pos <= k <= args@.len(),
                forall|j: int| pos <= j < k ==> args@[j] is Positional,
                k < args@.len() ==> args@[k] is Keyword,
                varargs@ == args@.subrange(pos as int, i as int).map_values(
                    |a: PyArg| arg_value(a),
                ),
            decreases args@.len() - i,
        {
            match &args[i] {
                PyArg::Positional(v) => {
                    varargs.push(*v);
                    proof {
                        assert(args@.subrange(pos as int, i + 1) =~= args@.subrange(
                            pos as int,
                            i as int,
                        ).push(args@[i as int]));
                        assert(varargs@ =~= args@.subrange(pos as int, i + 1).map_values(
                            |a: PyArg| arg_value(a),
                        ));
                    }
                    i = i + 1;
                },
                PyArg::Keyword(_, _) => {
                    return Ok((Args(varargs), i + 1));
                },
            }
        }
        Ok((Args(varargs), i))
    }
}

/// Facts about `next_keyword`: every argument before it is positional, and
/// it is a keyword argument unless it is the end.
proof fn lemma_next_keyword(args: Seq<PyArg>, pos: int)
    requires
        0 <= pos <= args.len(),
    ensures
        pos <= next_keyword(args, pos) <= args.len(),
        forall|j: int| pos <= j < next_keyword(args, pos) ==> args[j] is Positional,
        next_keyword(args, pos) < args.len() ==> args[next_keyword(args, pos)] is Keyword,
    decreases args.len() - pos,
{
    if pos < args.len() && args[pos] is Positional {
        lemma_next_keyword(args, pos + 1);
    }
}

/// Facts about `next_positional`, as for `next_keyword`.
proof fn lemma_next_positional(args: Seq<PyArg>, pos: int)
    requires
        0 <= pos <= args.len(),
    ensures
        pos <= next_positional(args, pos) <= args.len(),
        forall|j: int| pos <= j < next_positional(args, pos) ==> args[j] is Keyword,
        next_positional(args, pos) < args.len() ==> args[next_positional(args, pos)] is Positional,
    decreases args.len() - pos,
{
    if pos < args.len() && args[pos] is Keyword {
        lemma_next_positional(args, pos + 1);
    }
}

/// Any number of keyword arguments, by name.
pub struct KwArgs<T>(pub StrMap<T>);

impl FromArgs for KwArgs<PyObjectRef> {
    open spec fn outcome(args: Seq<PyArg>, pos: int) -> Result<int, ArgError> {
        Ok(after_run(args, next_positional(args, pos)))
    }

    /// The keyword arguments up to the next positional argument; that
    /// positional argument is read too, and dropped. A later keyword argument
    /// for a name takes the place of an earlier one.
    open spec fn binds(args: Seq<PyArg>, pos: int, r: Result<(Self, int), ArgError>) -> bool {
        let k = next_positional(args, pos);
        &&& r is Ok
        &&& r->Ok_0.0.0.wf()
        &&& r->Ok_0.0.0.map() == keyword_map(args.subrange(pos, k))
        &&& r->Ok_0.1 == after_run(args, k)
    }

    fn from_args(args: &Vec<PyArg>, pos: usize) -> (r: Result<(Self, usize), ArgError>) {
        let mut kwargs: StrMap<PyObjectRef> = StrMap::new();
        let mut i = pos;
        let ghost k = next_positional(args@, pos as int);
        proof {
            lemma_next_positional(args@, pos as int);
            assert(args@.subrange(pos as int, pos as int) =~= Seq::<PyArg>::empty());
        }
        while i < args.len()
            invariant
                pos <= i <= k,
                k == next_positional(args@, pos as int),
                pos <= k <= args@.len(),
                forall|j: int| pos <= j < k ==> args@[j] is Keyword,
                k < args@.len() ==> args@[k] is Positional,
                kwargs.wf(),
                kwargs.map() == keyword_map(args@.subrange(pos as int, i as int)),
            decreases args@.len() - i,
        {
            match &args[i] {
                PyArg::Keyword(name, v) => {
                    kwargs.insert(name.clone(), *v);
                    proof {
                        let s = args@.subrange(pos as int, i + 1);
                        assert(s.drop_last() =~= args@.subrange(pos as int, i as int));
                        assert(s.last() == args@[i as int]);
                    }
                    i = i + 1;
                },
                PyArg::Positional(_) => {
                    return Ok((KwArgs(kwargs), i + 1));
                },
            }
        }
        Ok((KwArgs(kwargs), i))
    }
}

/// An optional positional argument.
pub struct OptArg<T>(pub Option<T>);

impl<T> OptArg<T> {
    /// The value, if the argument was given.
    pub fn deref(&self) -> (r: &Option<T>)
        ensures
            *r == self.0,
    {
        &self.0
    }
}

impl FromArgs for OptArg<PyObjectRef> {
    open spec fn outcome(args: Seq<PyArg>, pos: int) -> Result<int, ArgError> {
        if pos < args.len() && args[pos] is Positional {
            Ok(pos + 1)
        } else {
            Ok(pos)
        }
    }

    /// The next argument if it is positional; otherwise nothing is read.
    open spec fn binds(args: Seq<PyArg>, pos: int, r: Result<(Self, int), ArgError>) -> bool {
        if pos < args.len() && args[pos] is Positional {
            r == Ok::<(OptArg<PyObjectRef>, int), ArgError>(
                (OptArg(Some(arg_value(args[pos]))), pos + 1),
            )
        } else {
            r == Ok::<(OptArg<PyObjectRef>, int), ArgError>((OptArg(None), pos))
        }
    }

    fn from_args(args: &Vec<PyArg>, pos: usize) -> (r: Result<(Self, usize), ArgError>) {
        if pos < args.len() {
            match &args[pos] {
                PyArg::Positional(v) => Ok((OptArg(Some(*v)), pos + 1)),
                PyArg::Keyword(_, _) => Ok((OptArg(None), pos)),
            }
        } else {
            Ok((OptArg(None), pos))
        }
    }
}

impl<A: FromArgs> FromArgs for (A,) {
    open spec fn outcome(args: Seq<PyArg>, pos: int) -> Result<int, ArgError> {
        A::outcome(args, pos)
    }

    /// The parameter, as `A` binds it.
    open spec fn binds(args: Seq<PyArg>, pos: int, r: Result<(Self, int), ArgError>) -> bool {
        match r {
            Ok((v, p)) => A::binds(args, pos, Ok((v.0, p))),
            Err(e) => A::binds(args, pos, Err(e)),
        }
    }

    fn from_args(args: &Vec<PyArg>, pos: usize) -> (r: Result<(Self, usize), ArgError>) {
        match A::from_args(args, pos) {
            Ok((a, p)) => {
                proof {
                    assert(A::binds(args@, pos as int, Ok((a, p as int))));
                    assert(<(A,) as FromArgs>::binds(args@, pos as int, Ok(((a,), p as int))));
                }
                Ok(((a,), p))
            },
            Err(e) => {
                proof {
                    assert(A::binds(args@, pos as int, Err(e)));
                    assert(<(A,) as FromArgs>::binds(args@, pos as int, Err(e)));
                }
                Err(e)
            },
        }
    }
}

/// `a` is bound from `pos` up to `p1`, then `b` from `p1` up to `p`.
pub open spec fn binds_then<A: FromArgs, B: FromArgs>(
    args: Seq<PyArg>,
    pos: int,
    a: A,
    p1: int,
    b: B,
    p: int,
) -> bool {
    A::binds(args, pos, Ok((a, p1))) && B::binds(args, p1, Ok((b, p)))
}

impl<A: FromArgs, B: FromArgs> FromArgs for (A, B) {
    open spec fn outcome(args: Seq<PyArg>, pos: int) -> Result<int, ArgError> {
        match A::outcome(args, pos) {
            Ok(p1) => B::outcome(args, p1),
            Err(e) => Err(e),
        }
    }

    /// `A` bound first, then `B` from where `A` stopped; the first error
    /// stops the binding.
    open spec fn binds(args: Seq<PyArg>, pos: int, r: Result<(Self, int), ArgError>) -> bool {
        match r {
            Ok((v, p)) => exists|p1: int| #[trigger] binds_then::<A, B>(args, pos, v.0, p1, v.1, p),
            Err(e) => A::binds(args, pos, Err(e)) || exists|a: A, p1: int|
                A::binds(args, pos, Ok((a, p1))) && B::binds(args, p1, Err(e)),
        }
    }

    fn from_args(args: &Vec<PyArg>, pos: usize) -> (r: Result<(Self, usize), ArgError>) {
        match A::from_args(args, pos) {
            Ok((a, p1)) => match B::from_args(args, p1) {
                Ok((b, p2)) => {
                    proof {
                        assert(A::binds(args@, pos as int, Ok((a, p1 as int))));
                        assert(B::binds(args@, p1 as int, Ok((b, p2 as int))));
                    }
                    let res = (a, b);
                    proof {
                        assert(binds_then::<A, B>(
                            args@,
                            pos as int,
                            res.0,
                            p1 as int,
                            res.1,
                            p2 as int,
                        ));
                        assert(exists|q: int| #[trigger] binds_then::<A, B>(args@, pos as int, res.0, q, res.1, p2 as int));
                        let rr: Result<((A, B), int), ArgError> = Ok((res, p2 as int));
                        assert(rr matches Ok((v, p)) && v == res && p == p2);
                        assert(<(A, B) as FromArgs>::binds(args@, pos as int, rr));
                    }
                    Ok((res, p2))
                },
                Err(e) => {
                    proof {
                        assert(A::binds(args@, pos as int, Ok((a, p1 as int))));
                        assert(B::binds(args@, p1 as int, Err(e)));
                        assert(<(A, B) as FromArgs>::binds(args@, pos as int, Err(e)));
                    }
                    Err(e)
                },
            },
            Err(e) => {
                proof {
                    assert(A::binds(args@, pos as int, Err(e)));
                    assert(<(A, B) as FromArgs>::binds(args@, pos as int, Err(e)));
                }
                Err(e)
            },
        }
    }
}

impl<A: FromArgs, B: FromArgs, C: FromArgs> FromArgs for (A, B, C) {
    open spec fn outcome(args: Seq<PyArg>, pos: int) -> Result<int, ArgError> {
        match <(A, B) as FromArgs>::outcome(args, pos) {
            Ok(p2) => C::outcome(args, p2),
            Err(e) => Err(e),
        }
    }

    /// `A`, then `B`, then `C`, each from where the one before stopped; the
    /// first error stops the binding.
    open spec fn binds(args: Seq<PyArg>, pos: int, r: Result<(Self, int), ArgError>) -> bool {
        match r {
            Ok((v, p)) => exists|p1: int, p2: int|
                #[trigger] binds_then::<A, B>(args, pos, v.0, p1, v.1, p2) && C::binds(
                    args,
                    p2,
                    Ok((v.2, p)),
                ),
            Err(e) => A::binds(args, pos, Err(e)) || (exists|a: A, p1: int|
                A::binds(args, pos, Ok((a, p1))) && B::binds(args, p1, Err(e))) || (exists|
                a: A,
                b: B,
                p1: int,
                p2: int,
            |
                A::binds(args, pos, Ok((a, p1))) && B::binds(args, p1, Ok((b, p2)))
                    && C::binds(args, p2, Err(e))),
        }
    }

    fn from_args(args: &Vec<PyArg>, pos: usize) -> (r: Result<(Self, usize), ArgError>) {
        match A::from_args(args, pos) {
            Ok((a, p1)) => {
                proof {
                    assert(A::binds(args@, pos as int, Ok((a, p1 as int))));
                }
                match B::from_args(args, p1) {
                    Ok((b, p2)) => {
                        proof {
                            assert(B::binds(args@, p1 as int, Ok((b, p2 as int))));
                        }
                        match C::from_args(args, p2) {
                            Ok((c, p3)) => {
                                proof {
                                    assert(C::binds(args@, p2 as int, Ok((c, p3 as int))));
                                }
                                let res = (a, b, c);
                                proof {
                                    assert(binds_then::<A, B>(
                                        args@,
                                        pos as int,
                                        res.0,
                                        p1 as int,
                                        res.1,
                                        p2 as int,
                                    ));
                                    assert(exists|q1: int, q2: int|
                                        #[trigger] binds_then::<A, B>(
                                            args@,
                                            pos as int,
                                            res.0,
                                            q1,
                                            res.1,
                                            q2,
                                        ) && C::binds(args@, q2, Ok((res.2, p3 as int))));
                                    let rr: Result<((A, B, C), int), ArgError> = Ok(
                                        (res, p3 as int),
                                    );
                                    assert(rr matches Ok((v, p)) && v == res && p == p3);
                                    assert(<(A, B, C) as FromArgs>::binds(args@, pos as int, rr));
                                }
                                Ok((res, p3))
                            },
                            Err(e) => {
                                proof {
                                    assert(C::binds(args@, p2 as int, Err(e)));
                                    assert(<(A, B, C) as FromArgs>::binds(
                                        args@,
                                        pos as int,
                                        Err(e),
                                    ));
                                }
                                Err(e)
                            },
                        }
                    },
                    Err(e) => {
                        proof {
                            assert(B::binds(args@, p1 as int, Err(e)));
                            assert(<(A, B, C) as FromArgs>::binds(args@, pos as int, Err(e)));
                        }
                        Err(e)
                    },
                }
            },
            Err(e) => {
                proof {
                    assert(A::binds(args@, pos as int, Err(e)));
                    assert(<(A, B, C) as FromArgs>::binds(args@, pos as int, Err(e)));
                }
                Err(e)
            },
        }
    }
}

impl<A: FromArgs, B: FromArgs, C: FromArgs, D: FromArgs> FromArgs for (A, B, C, D) {
    open spec fn outcome(args: Seq<PyArg>, pos: int) -> Result<int, ArgError> {
        match <(A, B, C) as FromArgs>::outcome(args, pos) {
            Ok(p3) => D::outcome(args, p3),
            Err(e) => Err(e),
        }
    }

    /// The first three parameters as `(A, B, C)` binds them, then `D` from
    /// where they stopped; the first error stops the binding.
    open spec fn binds(args: Seq<PyArg>, pos: int, r: Result<(Self, int), ArgError>) -> bool {
        match r {
            Ok((v, p)) => exists|p3: int|
                #[trigger] <(A, B, C) as FromArgs>::binds(args, pos, Ok(((v.0, v.1, v.2), p3)))
                    && D::binds(args, p3, Ok((v.3, p))),
            Err(e) => <(A, B, C) as FromArgs>::binds(args, pos, Err(e)) || exists|
                abc: (A, B, C),
                p3: int,
            |
                #[trigger] <(A, B, C) as FromArgs>::binds(args, pos, Ok((abc, p3))) && D::binds(
                    args,
                    p3,
                    Err(e),
                ),
        }
    }

    fn from_args(args: &Vec<PyArg>, pos: usize) -> (r: Result<(Self, usize), ArgError>) {
        match <(A, B, C) as FromArgs>::from_args(args, pos) {
            Ok((abc, p3)) => {
                proof {
                    assert(<(A, B, C) as FromArgs>::binds(args@, pos as int, Ok((abc, p3 as int))));
                }
                match D::from_args(args, p3) {
                    Ok((d, p4)) => {
                        proof {
                            assert(D::binds(args@, p3 as int, Ok((d, p4 as int))));
                        }
                        let (a, b, c) = abc;
                        let res = (a, b, c, d);
                        proof {
                            assert((res.0, res.1, res.2) == abc);
                            let rr: Result<((A, B, C, D), int), ArgError> = Ok((res, p4 as int));
                            assert(rr matches Ok((v, p)) && v == res && p == p4);
                            assert(<(A, B, C, D) as FromArgs>::binds(args@, pos as int, rr));
                        }
                        Ok((res, p4))
                    },
                    Err(e) => {
                        proof {
                            assert(D::binds(args@, p3 as int, Err(e)));
                            assert(<(A, B, C, D) as FromArgs>::binds(args@, pos as int, Err(e)));
                        }
                        Err(e)
                    },
                }
            },
            Err(e) => {
                proof {
                    assert(<(A, B, C) as FromArgs>::binds(args@, pos as int, Err(e)));
                    assert(<(A, B, C, D) as FromArgs>::binds(args@, pos as int, Err(e)));
                }
                Err(e)
            },
        }
    }
}

impl<A: FromArgs, B: FromArgs, C: FromArgs, D: FromArgs, E: FromArgs> FromArgs for (A, B, C, D, E) {
    open spec fn outcome(args: Seq<PyArg>, pos: int) -> Result<int, ArgError> {
        match <(A, B, C, D) as FromArgs>::outcome(args, pos) {
            Ok(p4) => E::outcome(args, p4),
            Err(e) => Err(e),
        }
    }

    /// The first four parameters as `(A, B, C, D)` binds them, then `E`
    /// from where they stopped; the first error stops the binding.
    open spec fn binds(args: Seq<PyArg>, pos: int, r: Result<(Self, int), ArgError>) -> bool {
        match r {
            Ok((v, p)) => exists|p4: int|
                #[trigger] <(A, B, C, D) as FromArgs>::binds(
                    args,
                    pos,
                    Ok(((v.0, v.1, v.2, v.3), p4)),
                ) && E::binds(args, p4, Ok((v.4, p))),
            Err(e) => <(A, B, C, D) as FromArgs>::binds(args, pos, Err(e)) || exists|
                abcd: (A, B, C, D),
                p4: int,
            |
                #[trigger] <(A, B, C, D) as FromArgs>::binds(args, pos, Ok((abcd, p4)))
                    && E::binds(args, p4, Err(e)),
        }
    }

    fn from_args(args: &Vec<PyArg>, pos: usize) -> (r: Result<(Self, usize), ArgError>) {
        match <(A, B, C, D) as FromArgs>::from_args(args, pos) {
            Ok((abcd, p4)) => {
                proof {
                    assert(<(A, B, C, D) as FromArgs>::binds(
                        args@,
                        pos as int,
                        Ok((abcd, p4 as int)),
                    ));
                }
                match E::from_args(args, p4) {
                    Ok((e, p5)) => {
                        proof {
                            assert(E::binds(args@, p4 as int, Ok((e, p5 as int))));
                        }
                        let (a, b, c, d) = abcd;
                        let res = (a, b, c, d, e);
                        proof {
                            assert((res.0, res.1, res.2, res.3) == abcd);
                            let rr: Result<((A, B, C, D, E), int), ArgError> = Ok(
                                (res, p5 as int),
                            );
                            assert(rr matches Ok((v, p)) && v == res && p == p5);
                            assert(<(A, B, C, D, E) as FromArgs>::binds(args@, pos as int, rr));
                        }
                        Ok((res, p5))
                    },
                    Err(err) => {
                        proof {
                            assert(E::binds(args@, p4 as int, Err(err)));
                            assert(<(A, B, C, D, E) as FromArgs>::binds(
                                args@,
                                pos as int,
                                Err(err),
                            ));
                        }
                        Err(err)
                    },
                }
            },
            Err(err) => {
                proof {
                    assert(<(A, B, C, D) as FromArgs>::binds(args@, pos as int, Err(err)));
                    assert(<(A, B, C, D, E) as FromArgs>::binds(args@, pos as int, Err(err)));
                }
                Err(err)
            },
        }
    }
}

/// The positional and keyword arguments of a call.
pub struct PyFuncArgs {
    pub args: Vec<PyObjectRef>,
    pub kwargs: Vec<(String, PyObjectRef)>,
}

impl PyFuncArgs {
    /// The arguments of a call whose last `kwarg_names.len()` values are
    /// keyword arguments with those names. The keyword arguments are listed
    /// from the last value backwards.
    pub fn new(args: Vec<PyObjectRef>, kwarg_names: Vec<String>) -> (r: PyFuncArgs)
        requires
            kwarg_names@.len() <= args@.len(),
        ensures
            r.args@ == args@.take(args@.len() - kwarg_names@.len()),
            r.kwargs@.len() == kwarg_names@.len(),
            forall|j: int|
                0 <= j < kwarg_names@.len() ==> (#[trigger] r.kwargs@[j]).0 == kwarg_names@[
                    kwarg_names@.len() - 1 - j] && r.kwargs@[j].1 == args@[args@.len() - 1 - j],
    {
        let ghost a0 = args@;
        let mut args = args;
        let mut kwargs: Vec<(String, PyObjectRef)> = Vec::new();
        let n = kwarg_names.len();
        let mut i = n;
        while i > 0
            invariant
                i <= n,
                n == kwarg_names@.len(),
                n <= a0.len(),
                args@ == a0.take(a0.len() - n + i),
                kwargs@.len() == n - i,
                forall|j: int|
                    0 <= j < n - i ==> (#[trigger] kwargs@[j]).0 == kwarg_names@[n - 1 - j]
                        && kwargs@[j].1 == a0[a0.len() - 1 - j],
            decreases i,
        {
            i = i - 1;
            let v = args.pop().unwrap();
            kwargs.push((kwarg_names[i].clone(), v));
            proof {
                assert(args@ =~= a0.take(a0.len() - n + i));
            }
        }
        PyFuncArgs { args, kwargs }
    }

    /// A copy of the keyword arguments.
    fn copy_kwargs(&self) -> (r: Vec<(String, PyObjectRef)>)
        ensures
            r@ == self.kwargs@,
    {
        let mut r: Vec<(String, PyObjectRef)> = Vec::new();
        let mut i: usize = 0;
        while i < self.kwargs.len()
            invariant
                i <= self.kwargs@.len(),
                r@ == self.kwargs@.take(i as int),
            decreases self.kwargs@.len() - i,
        {
            let name = self.kwargs[i].0.clone();
            r.push((name, self.kwargs[i].1));
            i = i + 1;
            proof {
                assert(r@ =~= self.kwargs@.take(i as int));
            }
        }
        proof {
            assert(self.kwargs@.take(i as int) =~= self.kwargs@);
        }
        r
    }

    /// These arguments with `item` as a new first positional argument.
    pub fn insert(&self, item: PyObjectRef) -> (r: PyFuncArgs)
        ensures
            r.args@ == seq![item] + self.args@,
            r.kwargs@ == self.kwargs@,
    {
        let mut args: Vec<PyObjectRef> = Vec::new();
        args.push(item);
        let mut i: usize = 0;
        while i < self.args.len()
            invariant
                i <= self.args@.len(),
                args@ == seq![item] + self.args@.take(i as int),
            decreases self.args@.len() - i,
        {
            args.push(self.args[i]);
            i = i + 1;
            proof {
                assert(args@ =~= seq![item] + self.args@.take(i as int));
            }
        }
        proof {
            assert(self.args@.take(i as int) =~= self.args@);
        }
        PyFuncArgs { args, kwargs: self.copy_kwargs() }
    }

    /// Removes and returns the first positional argument.
    pub fn shift(&mut self) -> (r: PyObjectRef)
        requires
            old(self).args@.len() > 0,
        ensures
            r == old(self).args@[0],
            final(self).args@ == old(self).args@.drop_first(),
            final(self).kwargs@ == old(self).kwargs@,
    {
        self.args.remove(0)
    }

    /// The value of the first keyword argument named `key`.
    pub fn get_optional_kwarg(&self, key: &str) -> (r: Option<PyObjectRef>)
        ensures
            r == kwarg_lookup(self.kwargs@, key@),
    {
        let k = String::from_str(key);
        let mut i: usize = 0;
        proof {
            assert(self.kwargs@.skip(0) =~= self.kwargs@);
        }
        while i < self.kwargs.len()
            invariant
                i <= self.kwargs@.len(),
                k@ == key@,
                kwarg_lookup(self.kwargs@, key@) == kwarg_lookup(
                    self.kwargs@.skip(i as int),
                    key@,
                ),
            decreases self.kwargs@.len() - i,
        {
            proof {
                assert(self.kwargs@.skip(i as int)[0] == self.kwargs@[i as int]);
                assert(self.kwargs@.skip(i as int).drop_first() =~= self.kwargs@.skip(i + 1));
            }
            if self.kwargs[i].0 == k {
                return Some(self.kwargs[i].1);
            }
            i = i + 1;
        }
        None
    }

    /// The value of the first keyword argument named `key`, or `default`.
    pub fn get_kwarg(&self, key: &str, default: PyObjectRef) -> (r: PyObjectRef)
        ensures
            r == match kwarg_lookup(self.kwargs@, key@) {
                Some(v) => v,
                None => default,
            },
    {
        match self.get_optional_kwarg(key) {
            Some(v) => v,
            None => default,
        }
    }

    /// The value of the first keyword argument named `key`, which must be
    /// an instance of `ty`.
    pub fn get_optional_kwarg_with_type(&self, ctx: &PyContext, key: &str, ty: PyObjectRef) -> (r:
        Result<Option<PyObjectRef>, ArgError>)
        requires
            ctx.wf(),
            forall|j: int| 0 <= j < self.kwargs@.len() ==> ctx.valid(#[trigger] self.kwargs@[j].1),
        ensures
            match kwarg_lookup(self.kwargs@, key@) {
                None => r == Ok::<Option<PyObjectRef>, ArgError>(None),
                Some(v) => if crate::object::isinstance_spec(ctx.heap(), v, ty) {
                    r == Ok::<Option<PyObjectRef>, ArgError>(Some(v))
                } else {
                    r matches Err(ArgError::WrongKwargType { key: k, expected, actual }) && k@
                        == key@ && expected == ty && actual == ctx.obj(v).typ->0
                },
            },
    {
        match self.get_optional_kwarg(key) {
            Some(kwarg) => {
                proof {
                    lemma_kwarg_lookup_in(self.kwargs@, key@);
                }
                if ctx.isinstance(&kwarg, &ty) {
                    Ok(Some(kwarg))
                } else {
                    let actual = kwarg.typ(ctx);
                    Err(ArgError::WrongKwargType { key: String::from_str(key), expected: ty, actual })
                }
            },
            None => Ok(None),
        }
    }

    /// The arguments in the order in which they are bound: the positional
    /// ones, then the keyword ones.
    pub fn into_iter(self) -> (r: Vec<PyArg>)
        ensures
            r@ == arg_stream(self.args@, self.kwargs@),
    {
        let mut r: Vec<PyArg> = Vec::new();
        let mut i: usize = 0;
        while i < self.args.len()
            invariant
                i <= self.args@.len(),
                r@ == self.args@.take(i as int).map_values(|v: PyObjectRef| PyArg::Positional(v)),
            decreases self.args@.len() - i,
        {
            r.push(PyArg::Positional(self.args[i]));
            i = i + 1;
            proof {
                assert(r@ =~= self.args@.take(i as int).map_values(
                    |v: PyObjectRef| PyArg::Positional(v),
                ));
            }
        }
        proof {
            assert(self.args@.take(i as int) =~= self.args@);
        }
        let ghost pre = r@;
        let mut j: usize = 0;
        while j < self.kwargs.len()
            invariant
                j <= self.kwargs@.len(),
                r@ == pre + self.kwargs@.take(j as int).map_values(
                    |kv: (String, PyObjectRef)| PyArg::Keyword(kv.0, kv.1),
                ),
            decreases self.kwargs@.len() - j,
        {
            let name = self.kwargs[j].0.clone();
            r.push(PyArg::Keyword(name, self.kwargs[j].1));
            j = j + 1;
            proof {
                assert(r@ =~= pre + self.kwargs@.take(j as int).map_values(
                    |kv: (String, PyObjectRef)| PyArg::Keyword(kv.0, kv.1),
                ));
            }
        }
        proof {
            assert(self.kwargs@.take(j as int) =~= self.kwargs@);
        }
        r
    }

    /// Binds these arguments to the parameters `T`: the error of reading
    /// them; when every argument was read, the value read; otherwise the
    /// call has too many arguments.
    pub fn bind<T: FromArgs>(self) -> (r: Result<T, ArgError>)
        ensures
            ({
                let s = arg_stream(self.args@, self.kwargs@);
                match T::outcome(s, 0) {
                    Err(e) => r == Err::<T, ArgError>(e),
                    Ok(p) => if p == s.len() {
                        r matches Ok(v) && T::binds(s, 0, Ok((v, p)))
                    } else {
                        r == Err::<T, ArgError>(ArgError::TooManyArgs)
                    },
                }
            }),
    {
        let args = self.into_iter();
        match T::from_args(&args, 0) {
            Ok((bound, p)) => {
                if p == args.len() {
                    Ok(bound)
                } else {
                    Err(ArgError::TooManyArgs)
                }
            },
            Err(e) => Err(e),
        }
    }
}

/// The first keyword argument with a name is one of the keyword arguments.
proof fn lemma_kwarg_lookup_in(kwargs: Seq<(String, PyObjectRef)>, key: Seq<char>)
    ensures
        kwarg_lookup(kwargs, key) matches Some(v) ==> exists|j: int|
            0 <= j < kwargs.len() && #[trigger] kwargs[j].1 == v,
    decreases kwargs.len(),
{
    if kwargs.len() > 0 && kwargs[0].0@ != key {
        lemma_kwarg_lookup_in(kwargs.drop_first(), key);
        if kwarg_lookup(kwargs.drop_first(), key) is Some {
            let v = kwarg_lookup(kwargs.drop_first(), key)->0;
            let j = choose|j: int| 0 <= j < kwargs.len() - 1 && #[trigger] kwargs.drop_first()[j].1 == v;
            assert(kwargs[j + 1].1 == v);
        }
    }
}


/// Why the arguments of a native function do not fit its parameters.
#[derive(Clone, Copy, PartialEq, Eq, Structural, Debug)]
#[allow(inconsistent_fields)]
pub enum ArgCheckError {
    /// `TypeError`: `got` arguments where the function takes `expected`.
    WrongCount { expected: usize, got: usize },
    /// `TypeError`: the argument at `index` is not an instance of the
    /// expected class; `actual` is the class of the argument.
    WrongType { index: usize, expected: PyObjectRef, actual: PyObjectRef },
}

/// The first parameter, from `i` on, whose required class the argument
/// fails, with that class and the argument's class.
pub open spec fn first_type_mismatch(
    h: Seq<crate::object::PyObject>,
    args: Seq<PyObjectRef>,
    types: Seq<Option<PyObjectRef>>,
    i: int,
) -> Option<ArgCheckError>
    decreases types.len() - i,
{
    if i < 0 || i >= types.len() {
        None
    } else if types[i] is Some && !crate::object::isinstance_spec(h, args[i], types[i]->0) {
        Some(
            ArgCheckError::WrongType {
                index: i as usize,
                expected: types[i]->0,
                actual: h[args[i].id as int].typ->0,
            },
        )
    } else {
        first_type_mismatch(h, args, types, i + 1)
    }
}

/// The outcome of checking arguments against parameters that each take
/// any object or an instance of a class: first the number of arguments,
/// then each argument in order.
pub open spec fn arg_check_result(
    h: Seq<crate::object::PyObject>,
    args: Seq<PyObjectRef>,
    types: Seq<Option<PyObjectRef>>,
) -> Option<ArgCheckError> {
    if args.len() != types.len() {
        Some(ArgCheckError::WrongCount { expected: types.len() as usize, got: args.len() as usize })
    } else {
        first_type_mismatch(h, args, types, 0)
    }
}

/// Checks the positional arguments of a native function: their number, and
/// that each argument whose parameter names a class is an instance of it.
pub fn arg_check(ctx: &PyContext, args: &Vec<PyObjectRef>, types: &Vec<Option<PyObjectRef>>) -> (r:
    Result<(), ArgCheckError>)
    requires
        ctx.wf(),
        forall|j: int| 0 <= j < args@.len() ==> ctx.valid(#[trigger] args@[j]),
    ensures
        match arg_check_result(ctx.heap(), args@, types@) {
            None => r is Ok,
            Some(e) => r == Err::<(), ArgCheckError>(e),
        },
{
    if args.len() != types.len() {
        return Err(ArgCheckError::WrongCount { expected: types.len(), got: args.len() });
    }
    let mut i: usize = 0;
    while i < types.len()
        invariant
            ctx.wf(),
            args@.len() == types@.len(),
            i <= types@.len(),
            forall|j: int| 0 <= j < args@.len() ==> ctx.valid(#[trigger] args@[j]),
            first_type_mismatch(ctx.heap(), args@, types@, 0) == first_type_mismatch(
                ctx.heap(),
                args@,
                types@,
                i as int,
            ),
        decreases types@.len() - i,
    {
        match types[i] {
            Some(expected) => {
                if !ctx.isinstance(&args[i], &expected) {
                    let actual = args[i].typ(ctx);
                    return Err(ArgCheckError::WrongType { index: i, expected, actual });
                }
            },
            None => {},
        }
        i = i + 1;
    }
    Ok(())
}

/// In the arguments of a call, every position of the positional part is
/// followed by positional arguments up to the end of that part.
proof fn lemma_next_keyword_of_call(
    args: Seq<PyObjectRef>,
    kwargs: Seq<(String, PyObjectRef)>,
    pos: int,
)
    requires
        0 <= pos <= args.len(),
    ensures
        next_keyword(arg_stream(args, kwargs), pos) == args.len(),
    decreases args.len() - pos,
{
    let s = arg_stream(args, kwargs);
    if pos < args.len() {
        assert(s[pos] == PyArg::Positional(args[pos]));
        lemma_next_keyword_of_call(args, kwargs, pos + 1);
    } else if kwargs.len() > 0 {
        assert(s[pos] == PyArg::Keyword(kwargs[0].0, kwargs[0].1));
    }
}

/// Law: bound from the start of a call's arguments, `Args` takes every
/// positional argument, in order, and reads one argument further when the
/// call has keyword arguments.
pub proof fn law_args_take_all_positionals(
    args: Seq<PyObjectRef>,
    kwargs: Seq<(String, PyObjectRef)>,
    r: Result<(Args<PyObjectRef>, int), ArgError>,
)
    requires
        <Args<PyObjectRef> as FromArgs>::binds(arg_stream(args, kwargs), 0, r),
    ensures
        <Args<PyObjectRef> as FromArgs>::outcome(arg_stream(args, kwargs), 0) == Ok::<int, ArgError>(
            r->Ok_0.1,
        ),
        r is Ok,
        r->Ok_0.0.0@ == args,
        r->Ok_0.1 == if kwargs.len() > 0 {
            args.len() + 1
        } else {
            args.len() + 0
        },
{
    let s = arg_stream(args, kwargs);
    lemma_next_keyword_of_call(args, kwargs, 0);
    assert(s.subrange(0, args.len() as int).map_values(|a: PyArg| arg_value(a)) =~= args);
}

/// Law: `shift` after `insert` gives back the inserted item and leaves the
/// positional arguments as they were before the insert.
pub proof fn law_shift_undoes_insert(args: Seq<PyObjectRef>, item: PyObjectRef)
    ensures
        (seq![item] + args).len() > 0,
        (seq![item] + args)[0] == item,
        (seq![item] + args).drop_first() == args,
{
    assert((seq![item] + args).drop_first() =~= args);
}

/// `m` holds every keyword of `kwargs`, each with the value of its last
/// occurrence, and no other name.
pub open spec fn holds_keywords(
    m: Map<Seq<char>, PyObjectRef>,
    kwargs: Seq<(String, PyObjectRef)>,
) -> bool {
    &&& forall|n: Seq<char>|
        #[trigger] m.dom().contains(n) <==> exists|j: int| 0 <= j < kwargs.len() && kwargs[j].0@ == n
    &&& forall|j: int|
        0 <= j < kwargs.len() && (forall|j2: int| j < j2 < kwargs.len() ==> kwargs[j2].0@ != kwargs[j].0@)
            ==> m[#[trigger] kwargs[j].0@] == kwargs[j].1
}

/// The keyword arguments of a call, as they stand in its stream.
spec fn keyword_stream(kwargs: Seq<(String, PyObjectRef)>) -> Seq<PyArg> {
    kwargs.map_values(|kv: (String, PyObjectRef)| PyArg::Keyword(kv.0, kv.1))
}

/// The map of a list of keyword arguments holds each keyword with the value
/// of its last occurrence.
proof fn lemma_keyword_map_holds(kwargs: Seq<(String, PyObjectRef)>)
    ensures
        holds_keywords(keyword_map(keyword_stream(kwargs)), kwargs),
    decreases kwargs.len(),
{
    let ks = keyword_stream(kwargs);
    if kwargs.len() > 0 {
        let rest = kwargs.drop_last();
        let last = kwargs.last();
        assert(ks.drop_last() =~= keyword_stream(rest));
        assert(ks.last() == PyArg::Keyword(last.0, last.1));
        lemma_keyword_map_holds(rest);
        let m0 = keyword_map(keyword_stream(rest));
        let m = keyword_map(ks);
        assert(m == m0.insert(last.0@, last.1));
        assert forall|n: Seq<char>|
            #[trigger] m.dom().contains(n) <==> exists|j: int|
                0 <= j < kwargs.len() && kwargs[j].0@ == n by {
            if m0.dom().contains(n) {
                let j = choose|j: int| 0 <= j < rest.len() && rest[j].0@ == n;
                assert(kwargs[j] == rest[j]);
            }
            if exists|j: int| 0 <= j < kwargs.len() && kwargs[j].0@ == n {
                let j = choose|j: int| 0 <= j < kwargs.len() && kwargs[j].0@ == n;
                if j < kwargs.len() - 1 {
                    assert(rest[j] == kwargs[j]);
                }
            }
        }
        assert forall|j: int|
            0 <= j < kwargs.len() && (forall|j2: int|
                j < j2 < kwargs.len() ==> kwargs[j2].0@ != kwargs[j].0@) implies m[
            #[trigger] kwargs[j].0@] == kwargs[j].1 by {
            if j < kwargs.len() - 1 {
                assert(rest[j] == kwargs[j]);
                assert(kwargs[kwargs.len() - 1].0@ != kwargs[j].0@);
                assert forall|j2: int| j < j2 < rest.len() implies rest[j2].0@ != rest[j].0@ by {
                    assert(rest[j2] == kwargs[j2]);
                }
            }
        }
    } else {
        assert(keyword_map(ks) =~= Map::<Seq<char>, PyObjectRef>::empty());
    }
}

/// In the arguments of a call, every position of the keyword part is
/// followed by keyword arguments up to the end.
proof fn lemma_next_positional_of_call(
    args: Seq<PyObjectRef>,
    kwargs: Seq<(String, PyObjectRef)>,
    pos: int,
)
    requires
        args.len() <= pos <= args.len() + kwargs.len(),
    ensures
        next_positional(arg_stream(args, kwargs), pos) == args.len() + kwargs.len(),
    decreases args.len() + kwargs.len() - pos,
{
    let s = arg_stream(args, kwargs);
    if pos < args.len() + kwargs.len() {
        assert(s[pos] == PyArg::Keyword(kwargs[pos - args.len()].0, kwargs[pos - args.len()].1));
        lemma_next_positional_of_call(args, kwargs, pos + 1);
    }
}

/// Law: bound after the positional arguments of a call, `KwArgs` reads every
/// keyword argument to the end of the call and holds each keyword, with the
/// value of its last occurrence.
pub proof fn law_kwargs_take_all_keywords(
    args: Seq<PyObjectRef>,
    kwargs: Seq<(String, PyObjectRef)>,
    r: Result<(KwArgs<PyObjectRef>, int), ArgError>,
)
    requires
        <KwArgs<PyObjectRef> as FromArgs>::binds(arg_stream(args, kwargs), args.len() as int, r),
    ensures
        <KwArgs<PyObjectRef> as FromArgs>::outcome(arg_stream(args, kwargs), args.len() as int)
            == Ok::<int, ArgError>((args.len() + kwargs.len()) as int),
        r is Ok,
        r->Ok_0.1 == args.len() + kwargs.len(),
        holds_keywords(r->Ok_0.0.0.map(), kwargs),
{
    let s = arg_stream(args, kwargs);
    lemma_next_positional_of_call(args, kwargs, args.len() as int);
    assert(s.subrange(args.len() as int, s.len() as int) =~= keyword_stream(kwargs));
    lemma_keyword_map_holds(kwargs);
}

/// Law: a native function with parameters `(object, **kwargs)` binds a call
/// with one positional argument and any keyword arguments: reading stops at
/// the end of the call, so `bind` succeeds.
pub proof fn law_bind_object_then_keywords(a: PyObjectRef, kwargs: Seq<(String, PyObjectRef)>)
    ensures
        <(PyObjectRef, KwArgs<PyObjectRef>) as FromArgs>::outcome(arg_stream(seq![a], kwargs), 0)
            == Ok::<int, ArgError>((1 + kwargs.len()) as int),
{
    let s = arg_stream(seq![a], kwargs);
    assert(s[0] == PyArg::Positional(a));
    lemma_next_positional_of_call(seq![a], kwargs, 1);
}

/// Law: a single object parameter takes the next positional argument of a
/// call; once the positional arguments are used up, the call has not
/// enough arguments.
pub proof fn law_object_takes_next_positional(
    args: Seq<PyObjectRef>,
    kwargs: Seq<(String, PyObjectRef)>,
    i: int,
    r: Result<(PyObjectRef, int), ArgError>,
)
    requires
        0 <= i <= args.len(),
        <PyObjectRef as FromArgs>::binds(arg_stream(args, kwargs), i, r),
    ensures
        i < args.len() ==> r == Ok::<(PyObjectRef, int), ArgError>((args[i], i + 1)),
        i == args.len() ==> r matches Err(ArgError::NotEnoughArgs),
        i == args.len() ==> <PyObjectRef as FromArgs>::outcome(arg_stream(args, kwargs), i)
            == Err::<int, ArgError>(ArgError::NotEnoughArgs),
{
    let s = arg_stream(args, kwargs);
    if i < args.len() {
        assert(s[i] == PyArg::Positional(args[i]));
    } else if kwargs.len() > 0 {
        assert(s[i] == PyArg::Keyword(kwargs[0].0, kwargs[0].1));
    }
}

/// Law: an optional parameter takes the next positional argument of a call
/// when there is one; otherwise it is left out and nothing is read.
pub proof fn law_optarg_takes_next_positional(
    args: Seq<PyObjectRef>,
    kwargs: Seq<(String, PyObjectRef)>,
    i: int,
    r: Result<(OptArg<PyObjectRef>, int), ArgError>,
)
    requires
        0 <= i <= args.len(),
        <OptArg<PyObjectRef> as FromArgs>::binds(arg_stream(args, kwargs), i, r),
    ensures
        i < args.len() ==> r == Ok::<(OptArg<PyObjectRef>, int), ArgError>(
            (OptArg(Some(args[i])), i + 1),
        ),
        i == args.len() ==> r == Ok::<(OptArg<PyObjectRef>, int), ArgError>((OptArg(None), i)),
{
    let s = arg_stream(args, kwargs);
    if i < args.len() {
        assert(s[i] == PyArg::Positional(args[i]));
    } else if kwargs.len() > 0 {
        assert(s[i] == PyArg::Keyword(kwargs[0].0, kwargs[0].1));
    }
}

} // verus!
