use vstd::prelude::*;
use crate::args::{ArgError, PyFuncArgs, TryFromObject};
use crate::object::{isinstance_spec, PyContext, PyObjectRef};

verus! {

/// An iterable object, given by its `__iter__` method.
pub struct PyIterable {
    pub method: PyObjectRef,
}

impl PyIterable {
    /// The iterable whose `__iter__` method is `method`.
    pub fn new(method: PyObjectRef) -> (r: PyIterable)
        ensures
            r.method == method,
    {
        PyIterable { method }
    }

    /// The iterable for an object once its `__iter__` method has been
    /// looked up, with `found` as the result: the iterable of that method,
    /// or the exception that the lookup raised.
    pub fn try_from_object(found: Result<PyObjectRef, PyObjectRef>) -> (r: Result<
        PyIterable,
        PyObjectRef,
    >)
        ensures
            match found {
                Ok(m) => r matches Ok(it) && it.method == m,
                Err(e) => r matches Err(e2) && e2 == e,
            },
    {
        match found {
            Ok(method) => Ok(PyIterable { method }),
            Err(e) => Err(e),
        }
    }

    /// The call that starts an iteration: the `__iter__` method, with no
    /// arguments. What the call returns is the iterator object.
    pub fn iter(&self) -> (r: (PyObjectRef, PyFuncArgs))
        ensures
            r.0 == self.method,
            r.1.args@.len() == 0,
            r.1.kwargs@.len() == 0,
    {
        (self.method, PyFuncArgs { args: Vec::new(), kwargs: Vec::new() })
    }

    /// The iteration, once the call that `iter` describes has been made
    /// with `called` as its result: an iterator over the object it
    /// returned, or the exception it raised. Starting makes no call of
    /// `__next__`.
    pub fn start(called: Result<PyObjectRef, PyObjectRef>) -> (r: Result<PyIterator, PyObjectRef>)
        ensures
            match called {
                Ok(o) => r matches Ok(it) && it.obj == o,
                Err(e) => r matches Err(e2) && e2 == e,
            },
    {
        match called {
            Ok(obj) => Ok(PyIterator { obj }),
            Err(e) => Err(e),
        }
    }
}

/// Why an iteration step gives no item: the exception that `__next__`
/// raised, or the item could not be converted.
pub enum IterError {
    Raised(PyObjectRef),
    Conversion(ArgError),
}

/// An iterator object, advanced by calling its method `__next__`.
pub struct PyIterator {
    pub obj: PyObjectRef,
}

impl PyIterator {
    /// The iterator over the iterator object `obj`.
    pub fn new(obj: PyObjectRef) -> (r: PyIterator)
        ensures
            r.obj == obj,
    {
        PyIterator { obj }
    }

    /// The call that each step makes, once: the method `__next__` of the
    /// iterator object, with no arguments.
    pub fn next_call(&self) -> (r: (PyObjectRef, String, Vec<PyObjectRef>))
        ensures
            r.0 == self.obj,
            r.1@ == "__next__"@,
            r.2@.len() == 0,
    {
        (self.obj, String::from_str("__next__"), Vec::new())
    }

    /// The next item, once the call that `next_call` describes has been
    /// made with `called` as its result: the value it returned, converted
    /// to `T`; the end of the iteration where it raised an instance of
    /// `stop_iteration`; any other exception, as it was raised.
    pub fn next<T: TryFromObject>(
        &self,
        ctx: &PyContext,
        called: Result<PyObjectRef, PyObjectRef>,
        stop_iteration: &PyObjectRef,
    ) -> (r: Option<Result<T, IterError>>)
        requires
            ctx.wf(),
            called matches Err(e) ==> ctx.valid(e),
        ensures
            match called {
                Ok(value) => match r {
                    Some(Ok(item)) => T::converts(ctx, value, Ok(item)),
                    Some(Err(IterError::Conversion(e))) => T::converts(ctx, value, Err(e)),
                    _ => false,
                },
                Err(e) => if isinstance_spec(ctx.heap(), e, *stop_iteration) {
                    r is None
                } else {
                    r matches Some(Err(IterError::Raised(e2))) && e2 == e
                },
            },
    {
        match called {
            Ok(value) => match T::try_from_object(ctx, value) {
                Ok(item) => Some(Ok(item)),
                Err(e) => Some(Err(IterError::Conversion(e))),
            },
            Err(err) => {
                if ctx.isinstance(&err, stop_iteration) {
                    None
                } else {
                    Some(Err(IterError::Raised(err)))
                }
            },
        }
    }
}

} // verus!
