# rustpython_vm

A verified core of a small Python virtual machine, written in Verus.

- `src/object.rs`: the object model. A `PyContext` owns every object; a
  `PyObjectRef` is an object's index. Contracts speak of the heap
  (`ctx.heap()`), of the well-formedness `wf` that every operation keeps,
  and of spec functions such as `attr_lookup`, `item_lookup` and
  `isinstance_spec`.
- `src/args.rs`: arguments of native functions (`PyFuncArgs`) and their
  binding to parameters (`FromArgs`: single objects, `Args`, `KwArgs`,
  `OptArg` and tuples of up to five parameters), and `arg_check`.
- `src/socket.rs`: the `socket` module. Each socket function decides what
  to do and returns the operating-system work as a `SocketAction`;
  `complete_action` takes the outcome of that work and gives the function's
  result.
- `src/iter.rs`: iteration through `__iter__` and `__next__`.
- `src/display.rs`: the debug and display texts of objects.
- `src/bigint.rs`: integers of any size, over `num-bigint`.
- `src/strmap.rs`: a map keyed by strings.

`app/` holds what runs outside the verifier: the real connections of the
sockets, the texts of errors, and the formatting of floats.
