use vstd::prelude::*;
use crate::args::{arg_check, arg_check_result, ArgCheckError, PyFuncArgs};
use crate::bigint::{int_to_decimal, PyInt};
use crate::object::{
    attr_lookup, bytes_of, class_mro, class_name, dict_map, dict_value, elements_of, int_of,
    is_class, obj_ok, own_attrs, refs_ok, socket_of, str_text, NativeFunction, PyContext, PyObject,
    PyObjectPayload, PyObjectRef, RustValue, TypeProtocol,
};

verus! {

/// The address families that the `socket` module knows.
#[derive(Clone, Copy, PartialEq, Eq, Structural, Debug)]
pub enum AddressFamily {
    Unix,
    Inet,
    Inet6,
}

/// The socket kinds that the `socket` module knows.
#[derive(Clone, Copy, PartialEq, Eq, Structural, Debug)]
pub enum SocketKind {
    Stream,
    Dgram,
}

/// The numeric code of each address family.
pub open spec fn address_family_code(f: AddressFamily) -> i32 {
    match f {
        AddressFamily::Unix => 1,
        AddressFamily::Inet => 2,
        AddressFamily::Inet6 => 3,
    }
}

/// The numeric code of each socket kind.
pub open spec fn socket_kind_code(k: SocketKind) -> i32 {
    match k {
        SocketKind::Stream => 1,
        SocketKind::Dgram => 2,
    }
}

/// Errors raised by the functions of the `socket` module.
pub enum SocketError {
    /// `OSError("Unknown address family value: {value}")`
    UnknownAddressFamily(i32),
    /// `OSError("Unknown socket kind value: {value}")`
    UnknownSocketKind(i32),
    /// A `TypeError` from checking the arguments.
    Arg(ArgCheckError),
    /// `TypeError("")`: the socket has no connection for the operation.
    TypeError,
    /// `OSError(<text>)` from the operating system.
    OsError(String),
    /// `NotImplementedError("")`
    NotImplemented,
}

/// The text of the error that a connection gives for an operation of
/// another kind of connection.
pub open spec fn unsupported_text() -> Seq<char> {
    "oh no!"@
}

/// `r` is the `OSError` of an operation that the connection does not
/// support.
pub open spec fn is_unsupported<T>(r: Result<T, SocketError>) -> bool {
    r matches Err(SocketError::OsError(t)) && t@ == unsupported_text()
}

/// The `OSError` of an operation that the connection does not support.
fn unsupported<T>() -> (r: Result<T, SocketError>)
    ensures
        is_unsupported(r),
{
    Err(SocketError::OsError(String::from_str("oh no!")))
}

impl AddressFamily {
    pub fn from_i32(value: i32) -> (res: Result<AddressFamily, SocketError>)
        ensures
            match res {
                Ok(f) => address_family_code(f) == value,
                Err(e) => e == SocketError::UnknownAddressFamily(value) && !(1 <= value <= 3),
            },
    {
        match value {
            1 => Ok(AddressFamily::Unix),
            2 => Ok(AddressFamily::Inet),
            3 => Ok(AddressFamily::Inet6),
            _ => Err(SocketError::UnknownAddressFamily(value)),
        }
    }

    /// The numeric code of this address family.
    pub fn code(&self) -> (r: i32)
        ensures
            r == address_family_code(*self),
    {
        match self {
            AddressFamily::Unix => 1,
            AddressFamily::Inet => 2,
            AddressFamily::Inet6 => 3,
        }
    }
}

impl SocketKind {
    pub fn from_i32(value: i32) -> (res: Result<SocketKind, SocketError>)
        ensures
            match res {
                Ok(k) => socket_kind_code(k) == value,
                Err(e) => e == SocketError::UnknownSocketKind(value) && !(1 <= value <= 2),
            },
    {
        match value {
            1 => Ok(SocketKind::Stream),
            2 => Ok(SocketKind::Dgram),
            _ => Err(SocketError::UnknownSocketKind(value)),
        }
    }

    /// The numeric code of this socket kind.
    pub fn code(&self) -> (r: i32)
        ensures
            r == socket_kind_code(*self),
    {
        match self {
            SocketKind::Stream => 1,
            SocketKind::Dgram => 2,
        }
    }
}

/// Which kind of operating-system connection a socket holds.
#[derive(Clone, Copy, PartialEq, Eq, Structural, Debug)]
pub enum Connection {
    TcpListener,
    TcpStream,
    UdpSocket,
}

/// The state of a Python `socket` object. The operating-system handle
/// itself is kept by the program that runs the socket's actions.
#[derive(Clone, Copy, PartialEq, Eq, Structural, Debug)]
pub struct Socket {
    pub address_family: AddressFamily,
    pub socket_kind: SocketKind,
    pub con: Option<Connection>,
}

impl Socket {
    /// A socket with no connection.
    pub fn new(address_family: AddressFamily, socket_kind: SocketKind) -> (s: Socket)
        ensures
            s.address_family == address_family,
            s.socket_kind == socket_kind,
            s.con is None,
    {
        Socket { address_family, socket_kind, con: None }
    }
}

/// The native functions of the `socket` class.
#[derive(Clone, Copy, PartialEq, Eq, Structural, Debug)]
pub enum SocketMethod {
    New,
    Connect,
    Recv,
    Send,
    Bind,
    Accept,
    Listen,
    Close,
    GetSockName,
    SendTo,
    RecvFrom,
}


/// The operating-system work that a socket function asks for; the program
/// that runs the module performs it on the socket's connection and reports
/// the outcome.
pub enum SocketAction {
    /// Open a TCP stream to the address.
    TcpConnect { address: String },
    /// Connect the UDP socket to the address.
    UdpConnect { address: String },
    /// Open a TCP listener on the address.
    TcpBind { address: String },
    /// Open a UDP socket on the address.
    UdpBind { address: String },
    /// Accept a connection on the listener.
    Accept,
    /// Read exactly `size` bytes.
    Recv { size: usize },
    /// Receive a datagram into a buffer of `size` bytes.
    RecvFrom { size: usize },
    /// Write the data.
    Send { data: Vec<u8> },
    /// Send the data as a datagram to the address.
    SendTo { data: Vec<u8>, address: String },
    /// Open a UDP socket on `0.0.0.0:0`, then send the data as a datagram to
    /// the address.
    BindAndSendTo { data: Vec<u8>, address: String },
    /// Read the local address of the connection.
    LocalAddr,
}

/// How the operating-system work of an action went.
pub enum ActionOutcome {
    /// It succeeded, with nothing to report.
    Done,
    /// It failed, with the error's text.
    Failed(String),
    /// A connection was accepted from the peer address.
    Accepted { ip: String, port: u16 },
    /// The bytes read: as many as were asked for.
    Received { data: Vec<u8> },
    /// The bytes of the datagram that arrived, at most as many as the
    /// buffer holds, and the sender's address.
    ReceivedFrom { data: Vec<u8>, ip: String, port: u16 },
    /// The local address.
    Address { ip: String, port: u16 },
}

/// A receive buffer of `size` bytes that holds `data` and zeros after it.
pub open spec fn received_buffer(data: Seq<u8>, size: nat) -> Seq<u8> {
    data + Seq::new((size - data.len()) as nat, |i: int| 0u8)
}

/// `data` followed by zeros, up to `size` bytes.
fn zero_filled(data: Vec<u8>, size: usize) -> (r: Vec<u8>)
    requires
        data@.len() <= size,
    ensures
        r@ == received_buffer(data@, size as nat),
{
    let ghost d = data@;
    let mut r = data;
    while r.len() < size
        invariant
            d.len() <= r@.len() <= size,
            r@ == received_buffer(d, r@.len()),
        decreases size - r@.len(),
    {
        r.push(0u8);
        proof {
            assert(r@ =~= received_buffer(d, r@.len()));
        }
    }
    proof {
        assert(r@ =~= received_buffer(d, size as nat));
    }
    r
}

/// The outcome is one that the action can have.
pub open spec fn outcome_fits(action: SocketAction, outcome: ActionOutcome) -> bool {
    match outcome {
        ActionOutcome::Done => !(action is Accept || action is Recv || action is RecvFrom
            || action is LocalAddr),
        ActionOutcome::Failed(_) => true,
        ActionOutcome::Accepted { .. } => action is Accept,
        ActionOutcome::Received { data } => action matches SocketAction::Recv { size }
            && data@.len() == size,
        ActionOutcome::ReceivedFrom { data, .. } => action matches SocketAction::RecvFrom { size }
            && data@.len() <= size,
        ActionOutcome::Address { .. } => action is LocalAddr,
    }
}

/// The text of a `host:port` address from the elements of an address
/// tuple: the host's text, a colon and the port in decimal.
pub open spec fn address_text(ctx: &PyContext, elements: Seq<PyObjectRef>) -> Seq<char> {
    str_text(ctx.heap(), elements[0])->0 + ":"@ + int_to_decimal(int_of(ctx.heap(), elements[1])->0)
}

/// The parameter classes of an address tuple: a `str` and an `int`.
pub open spec fn address_types(ctx: &PyContext) -> Seq<Option<PyObjectRef>> {
    seq![Some(ctx.str_type), Some(ctx.int_type)]
}

/// `address` can be read as an address tuple: it is a sequence, and when
/// its elements are a `str` and an `int` they carry a text and a value.
pub open spec fn address_readable(ctx: &PyContext, address: PyObjectRef) -> bool {
    &&& ctx.valid(address)
    &&& elements_of(ctx.heap(), address) is Some
    &&& {
        let e = elements_of(ctx.heap(), address)->0;
        arg_check_result(ctx.heap(), e, address_types(ctx)) is None ==> str_text(
            ctx.heap(),
            e[0],
        ) is Some && int_of(ctx.heap(), e[1]) is Some
    }
}

/// What reading an address tuple gives: the `host:port` text, or the error
/// from checking its elements.
pub open spec fn address_result(ctx: &PyContext, address: PyObjectRef) -> Result<
    Seq<char>,
    ArgCheckError,
> {
    let e = elements_of(ctx.heap(), address)->0;
    match arg_check_result(ctx.heap(), e, address_types(ctx)) {
        Some(err) => Err(err),
        None => Ok(address_text(ctx, e)),
    }
}

/// The `host:port` text of an address tuple whose elements are a `str` and
/// an `int`.
fn get_address_string(ctx: &PyContext, address: &PyObjectRef) -> (r: Result<String, SocketError>)
    requires
        ctx.wf(),
        address_readable(ctx, *address),
    ensures
        match address_result(ctx, *address) {
            Ok(text) => r matches Ok(s) && s@ == text,
            Err(e) => r matches Err(SocketError::Arg(e2)) && e2 == e,
        },
{
    let elements = ctx.get_elements(address);
    let mut types: Vec<Option<PyObjectRef>> = Vec::new();
    types.push(Some(ctx.str_type()));
    types.push(Some(ctx.int_type()));
    proof {
        assert(types@ =~= address_types(ctx));
    }
    match arg_check(ctx, &elements, &types) {
        Err(e) => Err(SocketError::Arg(e)),
        Ok(()) => {
            let host = ctx.get_str(&elements[0]);
            let port = ctx.get_int(&elements[1]);
            let mut s = host;
            s.append(":");
            let p = port.to_decimal_string();
            s.append(p.as_str());
            Ok(s)
        },
    }
}

/// The arguments are objects of the context.
pub open spec fn args_valid(ctx: &PyContext, args: &PyFuncArgs) -> bool {
    forall|j: int| 0 <= j < args.args@.len() ==> ctx.valid(#[trigger] args.args@[j])
}

/// The result of checking the positional arguments against parameter
/// classes.
pub open spec fn check(ctx: &PyContext, args: &PyFuncArgs, types: Seq<Option<PyObjectRef>>) -> Option<
    ArgCheckError,
> {
    arg_check_result(ctx.heap(), args.args@, types)
}

/// Checks the positional arguments against parameter classes.
fn check_args(ctx: &PyContext, args: &PyFuncArgs, types: Vec<Option<PyObjectRef>>) -> (r: Result<
    (),
    SocketError,
>)
    requires
        ctx.wf(),
        args_valid(ctx, args),
    ensures
        match check(ctx, args, types@) {
            None => r is Ok,
            Some(e) => r matches Err(SocketError::Arg(e2)) && e2 == e,
        },
{
    match arg_check(ctx, &args.args, &types) {
        Ok(()) => Ok(()),
        Err(e) => Err(SocketError::Arg(e)),
    }
}

/// The parameter classes `(any, int, int)` of `socket.__new__`.
pub open spec fn new_types(ctx: &PyContext) -> Seq<Option<PyObjectRef>> {
    seq![None, Some(ctx.int_type), Some(ctx.int_type)]
}

/// `socket.__new__(cls, family, kind)`: a new socket object of class `cls`
/// with no connection, after the family and the kind are known.
pub fn socket_new(ctx: &mut PyContext, args: &PyFuncArgs) -> (r: Result<PyObjectRef, SocketError>)
    requires
        old(ctx).wf(),
        args_valid(old(ctx), args),
        check(old(ctx), args, new_types(old(ctx))) is None ==> {
            let a = args.args@;
            &&& is_class(old(ctx).heap(), a[0])
            &&& int_of(old(ctx).heap(), a[1]) matches Some(v) && i32::MIN <= v <= i32::MAX
            &&& int_of(old(ctx).heap(), a[2]) matches Some(v) && i32::MIN <= v <= i32::MAX
        },
    ensures
        final(ctx).wf(),
        final(ctx).grows_from(old(ctx)),
        match check(old(ctx), args, new_types(old(ctx))) {
            Some(e) => r matches Err(SocketError::Arg(e2)) && e2 == e && *final(ctx) == *old(ctx),
            None => {
                let a = args.args@;
                let family = int_of(old(ctx).heap(), a[1])->0;
                let kind = int_of(old(ctx).heap(), a[2])->0;
                if !(1 <= family <= 3) {
                    r matches Err(SocketError::UnknownAddressFamily(v)) && v == family && *final(ctx)
                        == *old(ctx)
                } else if !(1 <= kind <= 2) {
                    r matches Err(SocketError::UnknownSocketKind(v)) && v == kind && *final(ctx)
                        == *old(ctx)
                } else {
                    &&& r is Ok
                    &&& final(ctx).appended(old(ctx), r->Ok_0, a[0])
                    &&& socket_of(final(ctx).heap(), r->Ok_0) matches Some(s)
                    &&& address_family_code(socket_of(final(ctx).heap(), r->Ok_0)->0.address_family)
                        == family
                    &&& socket_kind_code(socket_of(final(ctx).heap(), r->Ok_0)->0.socket_kind)
                        == kind
                    &&& socket_of(final(ctx).heap(), r->Ok_0)->0.con is None
                }
            },
        },
{
    let mut types: Vec<Option<PyObjectRef>> = Vec::new();
    types.push(None);
    types.push(Some(ctx.int_type()));
    types.push(Some(ctx.int_type()));
    proof {
        assert(types@ =~= new_types(ctx));
    }
    check_args(ctx, args, types)?;
    let cls = args.args[0];
    let family_value = ctx.get_int(&args.args[1]).to_i32().unwrap();
    let kind_value = ctx.get_int(&args.args[2]).to_i32().unwrap();
    let address_family = match AddressFamily::from_i32(family_value) {
        Ok(f) => f,
        Err(e) => return Err(e),
    };
    let kind = match SocketKind::from_i32(kind_value) {
        Ok(k) => k,
        Err(e) => return Err(e),
    };
    let socket = Socket::new(address_family, kind);
    let o = PyObject::new(
        PyObjectPayload::AnyRustValue { value: RustValue::Socket(socket) },
        cls,
        ctx,
    );
    Ok(o)
}


/// The state of the socket that a call is made on.
pub open spec fn zelf_socket(ctx: &PyContext, args: &PyFuncArgs) -> Socket {
    socket_of(ctx.heap(), args.args@[0])->0
}

/// The parameter classes `(any, tuple)` of `connect` and `bind`.
pub open spec fn address_param_types(ctx: &PyContext) -> Seq<Option<PyObjectRef>> {
    seq![None, Some(ctx.tuple_type)]
}

/// What `connect` and `bind` need of their arguments beyond their classes:
/// an address tuple that can be read and, once it is read, a socket.
pub open spec fn address_call_ok(ctx: &PyContext, args: &PyFuncArgs) -> bool {
    check(ctx, args, address_param_types(ctx)) is None ==> {
        &&& address_readable(ctx, args.args@[1])
        &&& address_result(ctx, args.args@[1]) is Ok ==> socket_of(ctx.heap(), args.args@[0]) is Some
    }
}

/// `socket.connect(address)`: a TCP socket connects a new stream; a UDP
/// socket that has been bound connects it; any other socket fails with
/// `TypeError`.
pub fn socket_connect(ctx: &PyContext, args: &PyFuncArgs) -> (r: Result<SocketAction, SocketError>)
    requires
        ctx.wf(),
        args_valid(ctx, args),
        address_call_ok(ctx, args),
    ensures
        match check(ctx, args, address_param_types(ctx)) {
            Some(e) => r matches Err(SocketError::Arg(e2)) && e2 == e,
            None => match address_result(ctx, args.args@[1]) {
                Err(e) => r matches Err(SocketError::Arg(e2)) && e2 == e,
                Ok(text) => match zelf_socket(ctx, args).socket_kind {
                    SocketKind::Stream => r matches Ok(SocketAction::TcpConnect { address })
                        && address@ == text,
                    SocketKind::Dgram => if zelf_socket(ctx, args).con == Some(
                        Connection::UdpSocket,
                    ) {
                        r matches Ok(SocketAction::UdpConnect { address }) && address@ == text
                    } else {
                        r matches Err(SocketError::TypeError)
                    },
                },
            },
        },
{
    let mut types: Vec<Option<PyObjectRef>> = Vec::new();
    types.push(None);
    types.push(Some(ctx.tuple_type()));
    proof {
        assert(types@ =~= address_param_types(ctx));
    }
    check_args(ctx, args, types)?;
    let address = get_address_string(ctx, &args.args[1])?;
    let socket = ctx.get_socket(&args.args[0]);
    match socket.socket_kind {
        SocketKind::Stream => Ok(SocketAction::TcpConnect { address }),
        SocketKind::Dgram => {
            if let Some(Connection::UdpSocket) = socket.con {
                Ok(SocketAction::UdpConnect { address })
            } else {
                Err(SocketError::TypeError)
            }
        },
    }
}

/// `socket.bind(address)`: a TCP socket opens a listener, a UDP socket a
/// datagram socket, on the address.
pub fn socket_bind(ctx: &PyContext, args: &PyFuncArgs) -> (r: Result<SocketAction, SocketError>)
    requires
        ctx.wf(),
        args_valid(ctx, args),
        address_call_ok(ctx, args),
    ensures
        match check(ctx, args, address_param_types(ctx)) {
            Some(e) => r matches Err(SocketError::Arg(e2)) && e2 == e,
            None => match address_result(ctx, args.args@[1]) {
                Err(e) => r matches Err(SocketError::Arg(e2)) && e2 == e,
                Ok(text) => match zelf_socket(ctx, args).socket_kind {
                    SocketKind::Stream => r matches Ok(SocketAction::TcpBind { address })
                        && address@ == text,
                    SocketKind::Dgram => r matches Ok(SocketAction::UdpBind { address })
                        && address@ == text,
                },
            },
        },
{
    let mut types: Vec<Option<PyObjectRef>> = Vec::new();
    types.push(None);
    types.push(Some(ctx.tuple_type()));
    proof {
        assert(types@ =~= address_param_types(ctx));
    }
    check_args(ctx, args, types)?;
    let address = get_address_string(ctx, &args.args[1])?;
    let socket = ctx.get_socket(&args.args[0]);
    match socket.socket_kind {
        SocketKind::Stream => Ok(SocketAction::TcpBind { address }),
        SocketKind::Dgram => Ok(SocketAction::UdpBind { address }),
    }
}

/// The parameter classes `(any, int)` of `listen`, `recv` and `recvfrom`.
pub open spec fn int_param_types(ctx: &PyContext) -> Seq<Option<PyObjectRef>> {
    seq![None, Some(ctx.int_type)]
}

/// `socket.listen(backlog)`: `None`; a listener listens once it is bound.
pub fn socket_listen(ctx: &PyContext, args: &PyFuncArgs) -> (r: Result<PyObjectRef, SocketError>)
    requires
        ctx.wf(),
        args_valid(ctx, args),
    ensures
        match check(ctx, args, int_param_types(ctx)) {
            Some(e) => r matches Err(SocketError::Arg(e2)) && e2 == e,
            None => r matches Ok(o) && o == ctx.none,
        },
{
    let mut types: Vec<Option<PyObjectRef>> = Vec::new();
    types.push(None);
    types.push(Some(ctx.int_type()));
    proof {
        assert(types@ =~= int_param_types(ctx));
    }
    check_args(ctx, args, types)?;
    Ok(ctx.none())
}

/// The parameter classes `(any)` of `accept`, `close` and `getsockname`.
pub open spec fn self_param_types() -> Seq<Option<PyObjectRef>> {
    seq![None]
}

/// `socket.accept()`: accept a connection when the socket has one;
/// otherwise `TypeError`.
pub fn socket_accept(ctx: &PyContext, args: &PyFuncArgs) -> (r: Result<SocketAction, SocketError>)
    requires
        ctx.wf(),
        args_valid(ctx, args),
        check(ctx, args, self_param_types()) is None ==> socket_of(ctx.heap(), args.args@[0]) is Some,
    ensures
        match check(ctx, args, self_param_types()) {
            Some(e) => r matches Err(SocketError::Arg(e2)) && e2 == e,
            None => match zelf_socket(ctx, args).con {
                None => r matches Err(SocketError::TypeError),
                Some(Connection::TcpListener) => r matches Ok(SocketAction::Accept),
                Some(_) => is_unsupported(r),
            },
        },
{
    let mut types: Vec<Option<PyObjectRef>> = Vec::new();
    types.push(None);
    proof {
        assert(types@ =~= self_param_types());
    }
    check_args(ctx, args, types)?;
    let socket = ctx.get_socket(&args.args[0]);
    match socket.con {
        Some(Connection::TcpListener) => Ok(SocketAction::Accept),
        Some(_) => unsupported(),
        None => Err(SocketError::TypeError),
    }
}

/// What `recv` and `recvfrom` need of their arguments beyond their classes:
/// a socket, and a buffer size that fits in memory.
pub open spec fn size_call_ok(ctx: &PyContext, args: &PyFuncArgs) -> bool {
    check(ctx, args, int_param_types(ctx)) is None ==> {
        &&& socket_of(ctx.heap(), args.args@[0]) is Some
        &&& int_of(ctx.heap(), args.args@[1]) matches Some(v) && 0 <= v <= usize::MAX
    }
}

/// `socket.recv(bufsize)`: read exactly `bufsize` bytes from a stream or
/// datagram connection; a listener cannot read, except that reading no
/// bytes reads nothing from any connection; without a connection,
/// `TypeError`.
pub fn socket_recv(ctx: &PyContext, args: &PyFuncArgs) -> (r: Result<SocketAction, SocketError>)
    requires
        ctx.wf(),
        args_valid(ctx, args),
        size_call_ok(ctx, args),
    ensures
        match check(ctx, args, int_param_types(ctx)) {
            Some(e) => r matches Err(SocketError::Arg(e2)) && e2 == e,
            None => match zelf_socket(ctx, args).con {
                None => r matches Err(SocketError::TypeError),
                Some(con) => if con == Connection::TcpListener && int_of(
                    ctx.heap(),
                    args.args@[1],
                )->0 != 0 {
                    is_unsupported(r)
                } else {
                    r matches Ok(SocketAction::Recv { size }) && size == int_of(
                        ctx.heap(),
                        args.args@[1],
                    )->0
                },
            },
        },
{
    let mut types: Vec<Option<PyObjectRef>> = Vec::new();
    types.push(None);
    types.push(Some(ctx.int_type()));
    proof {
        assert(types@ =~= int_param_types(ctx));
    }
    check_args(ctx, args, types)?;
    let socket = ctx.get_socket(&args.args[0]);
    let size = ctx.get_int(&args.args[1]).to_usize().unwrap();
    match socket.con {
        Some(Connection::TcpListener) => if size == 0 {
            Ok(SocketAction::Recv { size })
        } else {
            unsupported()
        },
        Some(_) => Ok(SocketAction::Recv { size }),
        None => Err(SocketError::TypeError),
    }
}

/// `socket.recvfrom(bufsize)`: receive a datagram into a buffer of
/// `bufsize` bytes on a datagram connection; other connections cannot;
/// without a connection, `TypeError`.
pub fn socket_recvfrom(ctx: &PyContext, args: &PyFuncArgs) -> (r: Result<
    SocketAction,
    SocketError,
>)
    requires
        ctx.wf(),
        args_valid(ctx, args),
        size_call_ok(ctx, args),
    ensures
        match check(ctx, args, int_param_types(ctx)) {
            Some(e) => r matches Err(SocketError::Arg(e2)) && e2 == e,
            None => match zelf_socket(ctx, args).con {
                None => r matches Err(SocketError::TypeError),
                Some(Connection::UdpSocket) => r matches Ok(SocketAction::RecvFrom { size })
                    && size == int_of(ctx.heap(), args.args@[1])->0,
                Some(_) => is_unsupported(r),
            },
        },
{
    let mut types: Vec<Option<PyObjectRef>> = Vec::new();
    types.push(None);
    types.push(Some(ctx.int_type()));
    proof {
        assert(types@ =~= int_param_types(ctx));
    }
    check_args(ctx, args, types)?;
    let socket = ctx.get_socket(&args.args[0]);
    let size = ctx.get_int(&args.args[1]).to_usize().unwrap();
    match socket.con {
        Some(Connection::UdpSocket) => Ok(SocketAction::RecvFrom { size }),
        Some(_) => unsupported(),
        None => Err(SocketError::TypeError),
    }
}

/// The parameter classes `(any, bytes)` of `send`.
pub open spec fn bytes_param_types(ctx: &PyContext) -> Seq<Option<PyObjectRef>> {
    seq![None, Some(ctx.bytes_type)]
}

/// `socket.send(bytes)`: write the bytes on a stream or datagram
/// connection; a listener cannot write; without a connection, `TypeError`.
pub fn socket_send(ctx: &PyContext, args: &PyFuncArgs) -> (r: Result<SocketAction, SocketError>)
    requires
        ctx.wf(),
        args_valid(ctx, args),
        check(ctx, args, bytes_param_types(ctx)) is None ==> socket_of(
            ctx.heap(),
            args.args@[0],
        ) is Some && bytes_of(ctx.heap(), args.args@[1]) is Some,
    ensures
        match check(ctx, args, bytes_param_types(ctx)) {
            Some(e) => r matches Err(SocketError::Arg(e2)) && e2 == e,
            None => match zelf_socket(ctx, args).con {
                None => r matches Err(SocketError::TypeError),
                Some(Connection::TcpListener) => is_unsupported(r),
                Some(_) => r matches Ok(SocketAction::Send { data }) && data@ == bytes_of(
                    ctx.heap(),
                    args.args@[1],
                )->0,
            },
        },
{
    let mut types: Vec<Option<PyObjectRef>> = Vec::new();
    types.push(None);
    types.push(Some(ctx.bytes_type()));
    proof {
        assert(types@ =~= bytes_param_types(ctx));
    }
    check_args(ctx, args, types)?;
    let socket = ctx.get_socket(&args.args[0]);
    match socket.con {
        Some(Connection::TcpListener) => unsupported(),
        Some(_) => Ok(SocketAction::Send { data: ctx.get_bytes(&args.args[1]) }),
        None => Err(SocketError::TypeError),
    }
}

/// The parameter classes `(any, bytes, tuple)` of `sendto`.
pub open spec fn sendto_param_types(ctx: &PyContext) -> Seq<Option<PyObjectRef>> {
    seq![None, Some(ctx.bytes_type), Some(ctx.tuple_type)]
}

/// What `sendto` needs of its arguments beyond their classes: an address
/// tuple that can be read; once it is read, a socket; for a UDP socket,
/// bytes.
pub open spec fn sendto_call_ok(ctx: &PyContext, args: &PyFuncArgs) -> bool {
    check(ctx, args, sendto_param_types(ctx)) is None ==> {
        &&& address_readable(ctx, args.args@[2])
        &&& address_result(ctx, args.args@[2]) is Ok ==> {
            &&& socket_of(ctx.heap(), args.args@[0]) is Some
            &&& socket_of(ctx.heap(), args.args@[0])->0.socket_kind == SocketKind::Dgram ==> bytes_of(
                ctx.heap(),
                args.args@[1],
            ) is Some
        }
    }
}

/// `socket.sendto(bytes, address)`: a UDP socket sends the bytes to the
/// address, first opening a datagram socket on `0.0.0.0:0` when it has
/// no connection; a connection of another kind cannot send a datagram; a
/// TCP socket fails with `NotImplementedError`.
pub fn socket_sendto(ctx: &PyContext, args: &PyFuncArgs) -> (r: Result<SocketAction, SocketError>)
    requires
        ctx.wf(),
        args_valid(ctx, args),
        sendto_call_ok(ctx, args),
    ensures
        match check(ctx, args, sendto_param_types(ctx)) {
            Some(e) => r matches Err(SocketError::Arg(e2)) && e2 == e,
            None => match address_result(ctx, args.args@[2]) {
                Err(e) => r matches Err(SocketError::Arg(e2)) && e2 == e,
                Ok(text) => match zelf_socket(ctx, args).socket_kind {
                    SocketKind::Dgram => {
                        let bytes = bytes_of(ctx.heap(), args.args@[1])->0;
                        match zelf_socket(ctx, args).con {
                            Some(Connection::UdpSocket) => r matches Ok(
                                SocketAction::SendTo { data, address },
                            ) && data@ == bytes && address@ == text,
                            Some(_) => is_unsupported(r),
                            None => r matches Ok(SocketAction::BindAndSendTo { data, address })
                                && data@ == bytes && address@ == text,
                        }
                    },
                    SocketKind::Stream => r matches Err(SocketError::NotImplemented),
                },
            },
        },
{
    let mut types: Vec<Option<PyObjectRef>> = Vec::new();
    types.push(None);
    types.push(Some(ctx.bytes_type()));
    types.push(Some(ctx.tuple_type()));
    proof {
        assert(types@ =~= sendto_param_types(ctx));
    }
    check_args(ctx, args, types)?;
    let address = get_address_string(ctx, &args.args[2])?;
    let socket = ctx.get_socket(&args.args[0]);
    match socket.socket_kind {
        SocketKind::Dgram => {
            let data = ctx.get_bytes(&args.args[1]);
            match socket.con {
                Some(Connection::UdpSocket) => Ok(SocketAction::SendTo { data, address }),
                Some(_) => unsupported(),
                None => Ok(SocketAction::BindAndSendTo { data, address }),
            }
        },
        _ => Err(SocketError::NotImplemented),
    }
}

/// `socket.close()`: the socket drops its connection; `None`.
pub fn socket_close(ctx: &mut PyContext, args: &PyFuncArgs) -> (r: Result<PyObjectRef, SocketError>)
    requires
        old(ctx).wf(),
        args_valid(old(ctx), args),
        check(old(ctx), args, self_param_types()) is None ==> socket_of(
            old(ctx).heap(),
            args.args@[0],
        ) is Some,
    ensures
        final(ctx).wf(),
        match check(old(ctx), args, self_param_types()) {
            Some(e) => r matches Err(SocketError::Arg(e2)) && e2 == e && *final(ctx) == *old(ctx),
            None => {
                let zelf = args.args@[0];
                let s = socket_of(old(ctx).heap(), zelf)->0;
                &&& r matches Ok(o) && o == old(ctx).none
                &&& socket_of(final(ctx).heap(), zelf) == Some(Socket { con: None, ..s })
                &&& final(ctx).socket_updated(old(ctx), zelf)
            },
        },
{
    let mut types: Vec<Option<PyObjectRef>> = Vec::new();
    types.push(None);
    proof {
        assert(types@ =~= self_param_types());
    }
    check_args(ctx, args, types)?;
    let zelf = args.args[0];
    let mut socket = ctx.get_socket(&zelf);
    socket.con = None;
    ctx.set_socket(&zelf, socket);
    Ok(ctx.none())
}

/// `socket.getsockname()`: read the local address when the socket has a
/// connection; otherwise `TypeError`.
pub fn socket_getsockname(ctx: &PyContext, args: &PyFuncArgs) -> (r: Result<
    SocketAction,
    SocketError,
>)
    requires
        ctx.wf(),
        args_valid(ctx, args),
        check(ctx, args, self_param_types()) is None ==> socket_of(ctx.heap(), args.args@[0]) is Some,
    ensures
        match check(ctx, args, self_param_types()) {
            Some(e) => r matches Err(SocketError::Arg(e2)) && e2 == e,
            None => if zelf_socket(ctx, args).con is Some {
                r matches Ok(SocketAction::LocalAddr)
            } else {
                r matches Err(SocketError::TypeError)
            },
        },
{
    let mut types: Vec<Option<PyObjectRef>> = Vec::new();
    types.push(None);
    proof {
        assert(types@ =~= self_param_types());
    }
    check_args(ctx, args, types)?;
    let socket = ctx.get_socket(&args.args[0]);
    match socket.con {
        Some(_) => Ok(SocketAction::LocalAddr),
        None => Err(SocketError::TypeError),
    }
}


/// `t` is an address tuple `(ip, port)`: a new `tuple` of a `str` with the
/// text of the IP address and an `int` with the port.
pub open spec fn is_addr_tuple(ctx: &PyContext, t: PyObjectRef, ip: Seq<char>, port: u16) -> bool {
    &&& ctx.valid(t)
    &&& ctx.obj(t).typ == Some(ctx.tuple_type)
    &&& elements_of(ctx.heap(), t) matches Some(e) && e.len() == 2
    &&& {
        let e = elements_of(ctx.heap(), t)->0;
        &&& ctx.valid(e[0]) && ctx.valid(e[1])
        &&& ctx.obj(e[0]).typ == Some(ctx.str_type)
        &&& str_text(ctx.heap(), e[0]) == Some(ip)
        &&& ctx.obj(e[1]).typ == Some(ctx.int_type)
        &&& int_of(ctx.heap(), e[1]) == Some(port as int)
    }
}

/// The address tuple `(ip, port)` of a socket address.
pub fn get_addr_tuple(ctx: &mut PyContext, ip: String, port: u16) -> (r: PyObjectRef)
    requires
        old(ctx).wf(),
    ensures
        final(ctx).wf(),
        final(ctx).grows_from(old(ctx)),
        is_addr_tuple(final(ctx), r, ip@, port),
{
    let port_obj = ctx.new_int(PyInt::from_i64(port as i64));
    let ip_obj = ctx.new_str(ip);
    let mut elements: Vec<PyObjectRef> = Vec::new();
    elements.push(ip_obj);
    elements.push(port_obj);
    let ghost mid = *ctx;
    let r = ctx.new_tuple(elements);
    proof {
        assert(ctx.heap()[ip_obj.id as int] == mid.heap()[ip_obj.id as int]);
        assert(ctx.heap()[port_obj.id as int] == mid.heap()[port_obj.id as int]);
        assert(elements_of(ctx.heap(), r)->0 =~= seq![ip_obj, port_obj]);
    }
    r
}

/// The socket state after an action succeeded: a TCP connect gives a
/// stream; a bind gives a listener or a datagram socket; the implicit bind
/// of `sendto` gives a datagram socket; other actions leave it as it was.
pub open spec fn state_after(s: Socket, action: SocketAction) -> Socket {
    match action {
        SocketAction::TcpConnect { .. } => Socket { con: Some(Connection::TcpStream), ..s },
        SocketAction::TcpBind { .. } => Socket { con: Some(Connection::TcpListener), ..s },
        SocketAction::UdpBind { .. } => Socket { con: Some(Connection::UdpSocket), ..s },
        SocketAction::BindAndSendTo { .. } => Socket { con: Some(Connection::UdpSocket), ..s },
        _ => s,
    }
}

/// Law: every address family has a code that `AddressFamily::from_i32`
/// accepts, and no two families share a code, so reading a family's code
/// gives the family back.
pub proof fn law_address_family_code_round_trip(f: AddressFamily, g: AddressFamily)
    ensures
        1 <= address_family_code(f) <= 3,
        address_family_code(f) == address_family_code(g) ==> f == g,
{
}

/// Law: every socket kind has a code that `SocketKind::from_i32` accepts,
/// and no two kinds share a code, so reading a kind's code gives the kind
/// back.
pub proof fn law_socket_kind_code_round_trip(k: SocketKind, l: SocketKind)
    ensures
        1 <= socket_kind_code(k) <= 2,
        socket_kind_code(k) == socket_kind_code(l) ==> k == l,
{
}

/// Law: no action changes a socket's address family or kind; after a
/// connect, a bind or the implicit bind of `sendto` the socket has a
/// connection, and an action on a connection keeps it.
pub proof fn law_actions_keep_socket(s: Socket, action: SocketAction)
    ensures
        state_after(s, action).address_family == s.address_family,
        state_after(s, action).socket_kind == s.socket_kind,
        (action is TcpConnect || action is TcpBind || action is UdpBind
            || action is BindAndSendTo) ==> state_after(s, action).con is Some,
        s.con is Some ==> state_after(s, action).con is Some,
{
}

/// Law: only a TCP connect, a bind or the implicit bind of `sendto` opens a
/// connection, of the kind that it makes: a stream, a listener, a datagram
/// socket. Every other action (connecting a UDP socket, sending, receiving,
/// accepting, reading the local address) leaves the socket as it was, so
/// the connection that it used stays for the next call.
pub proof fn law_only_connect_and_bind_change_socket(s: Socket, action: SocketAction)
    ensures
        action is TcpConnect ==> state_after(s, action).con == Some(Connection::TcpStream),
        action is TcpBind ==> state_after(s, action).con == Some(Connection::TcpListener),
        (action is UdpBind || action is BindAndSendTo) ==> state_after(s, action).con == Some(
            Connection::UdpSocket,
        ),
        !(action is TcpConnect || action is TcpBind || action is UdpBind || action is BindAndSendTo)
            ==> state_after(s, action) == s,
        action is UdpConnect && s.con == Some(Connection::UdpSocket) ==> state_after(s, action).con
            == Some(Connection::UdpSocket),
        (action is Send || action is SendTo || action is Recv || action is RecvFrom) ==> state_after(
            s,
            action,
        ).con == s.con,
{
}

/// The result of a socket function once the operating system has done its
/// action on the socket `zelf`: a failure is an `OSError` with its text,
/// and leaves everything as it was; a success updates the socket's state
/// and gives `None`, or the object for what was obtained: for `accept`, a
/// tuple of a new connected socket of the same class and the peer's address
/// tuple; for `recv`, a `bytes` object of the bytes read; for `recvfrom`, a
/// tuple of a `bytes` object of the whole buffer, zeros after the datagram,
/// and the sender's address tuple; for `getsockname`, the
/// local address tuple.
pub fn complete_action(
    ctx: &mut PyContext,
    zelf: &PyObjectRef,
    action: SocketAction,
    outcome: ActionOutcome,
) -> (r: Result<PyObjectRef, SocketError>)
    requires
        old(ctx).wf(),
        old(ctx).valid(*zelf),
        socket_of(old(ctx).heap(), *zelf) is Some,
        outcome_fits(action, outcome),
    ensures
        final(ctx).wf(),
        match outcome {
            ActionOutcome::Failed(text) => r matches Err(SocketError::OsError(t)) && t@ == text@
                && *final(ctx) == *old(ctx),
            ActionOutcome::Done => {
                &&& r matches Ok(o) && o == old(ctx).none
                &&& final(ctx).socket_updated(old(ctx), *zelf)
                &&& socket_of(final(ctx).heap(), *zelf) == Some(
                    state_after(socket_of(old(ctx).heap(), *zelf)->0, action),
                )
                &&& {
                    let s = socket_of(old(ctx).heap(), *zelf)->0;
                    let s2 = socket_of(final(ctx).heap(), *zelf)->0;
                    &&& s2.address_family == s.address_family
                    &&& s2.socket_kind == s.socket_kind
                    &&& action is TcpConnect ==> s2.con == Some(Connection::TcpStream)
                    &&& action is TcpBind ==> s2.con == Some(Connection::TcpListener)
                    &&& (action is UdpBind || action is BindAndSendTo) ==> s2.con == Some(
                        Connection::UdpSocket,
                    )
                    &&& !(action is TcpConnect || action is TcpBind || action is UdpBind
                        || action is BindAndSendTo) ==> s2 == s
                }
            },
            ActionOutcome::Accepted { ip, port } => {
                let s = socket_of(old(ctx).heap(), *zelf)->0;
                &&& final(ctx).grows_from(old(ctx))
                &&& r is Ok
                &&& final(ctx).obj(r->Ok_0).typ == Some(old(ctx).tuple_type)
                &&& elements_of(final(ctx).heap(), r->Ok_0) matches Some(e) && e.len() == 2
                &&& {
                    let e = elements_of(final(ctx).heap(), r->Ok_0)->0;
                    &&& final(ctx).valid(e[0])
                    &&& socket_of(final(ctx).heap(), e[0]) == Some(
                        Socket { con: Some(Connection::TcpStream), ..s },
                    )
                    &&& final(ctx).obj(e[0]).typ == old(ctx).obj(*zelf).typ
                    &&& is_addr_tuple(final(ctx), e[1], ip@, port)
                }
            },
            ActionOutcome::Received { data } => {
                &&& r is Ok
                &&& final(ctx).appended(old(ctx), r->Ok_0, old(ctx).bytes_type)
                &&& bytes_of(final(ctx).heap(), r->Ok_0) == Some(data@)
            },
            ActionOutcome::ReceivedFrom { data, ip, port } => {
                &&& final(ctx).grows_from(old(ctx))
                &&& r is Ok
                &&& final(ctx).obj(r->Ok_0).typ == Some(old(ctx).tuple_type)
                &&& elements_of(final(ctx).heap(), r->Ok_0) matches Some(e) && e.len() == 2
                &&& {
                    let e = elements_of(final(ctx).heap(), r->Ok_0)->0;
                    &&& final(ctx).valid(e[0])
                    &&& final(ctx).obj(e[0]).typ == Some(old(ctx).bytes_type)
                    &&& bytes_of(final(ctx).heap(), e[0]) == Some(
                        received_buffer(data@, action->RecvFrom_size as nat),
                    )
                    &&& is_addr_tuple(final(ctx), e[1], ip@, port)
                }
            },
            ActionOutcome::Address { ip, port } => {
                &&& final(ctx).grows_from(old(ctx))
                &&& r is Ok
                &&& is_addr_tuple(final(ctx), r->Ok_0, ip@, port)
            },
        },
{
    match outcome {
        ActionOutcome::Failed(text) => Err(SocketError::OsError(text)),
        ActionOutcome::Done => {
            let mut socket = ctx.get_socket(zelf);
            match action {
                SocketAction::TcpConnect { .. } => {
                    socket.con = Some(Connection::TcpStream);
                },
                SocketAction::TcpBind { .. } => {
                    socket.con = Some(Connection::TcpListener);
                },
                SocketAction::UdpBind { .. } => {
                    socket.con = Some(Connection::UdpSocket);
                },
                SocketAction::BindAndSendTo { .. } => {
                    socket.con = Some(Connection::UdpSocket);
                },
                _ => {},
            }
            ctx.set_socket(zelf, socket);
            Ok(ctx.none())
        },
        ActionOutcome::Accepted { ip, port } => {
            let socket = ctx.get_socket(zelf);
            let typ = zelf.typ(ctx);
            let accepted = Socket {
                address_family: socket.address_family,
                socket_kind: socket.socket_kind,
                con: Some(Connection::TcpStream),
            };
            proof {
                assert(obj_ok(ctx.heap(), zelf.id as int));
            }
            let sock_obj = PyObject::new(
                PyObjectPayload::AnyRustValue { value: RustValue::Socket(accepted) },
                typ,
                ctx,
            );
            let ghost c1 = *ctx;
            let addr_tuple = get_addr_tuple(ctx, ip, port);
            let mut elements: Vec<PyObjectRef> = Vec::new();
            elements.push(sock_obj);
            elements.push(addr_tuple);
            let ghost c2 = *ctx;
            let r = ctx.new_tuple(elements);
            proof {
                assert(ctx.heap()[sock_obj.id as int] == c1.heap()[sock_obj.id as int]);
                assert(elements_of(ctx.heap(), r)->0 =~= seq![sock_obj, addr_tuple]);
                lemma_addr_tuple_stable(&c2, ctx, addr_tuple, ip@, port);
            }
            Ok(r)
        },
        ActionOutcome::Received { data } => Ok(ctx.new_bytes(data)),
        ActionOutcome::ReceivedFrom { data, ip, port } => {
            let size = match action {
                SocketAction::RecvFrom { size } => size,
                _ => 0,
            };
            let buffer = zero_filled(data, size);
            let addr_tuple = get_addr_tuple(ctx, ip, port);
            let bytes = ctx.new_bytes(buffer);
            let mut elements: Vec<PyObjectRef> = Vec::new();
            elements.push(bytes);
            elements.push(addr_tuple);
            let ghost c2 = *ctx;
            let r = ctx.new_tuple(elements);
            proof {
                assert(elements_of(ctx.heap(), r)->0 =~= seq![bytes, addr_tuple]);
                lemma_addr_tuple_stable(&c2, ctx, addr_tuple, ip@, port);
            }
            Ok(r)
        },
        ActionOutcome::Address { ip, port } => Ok(get_addr_tuple(ctx, ip, port)),
    }
}

/// An address tuple stays one as the context grows.
proof fn lemma_addr_tuple_stable(
    old: &PyContext,
    new: &PyContext,
    t: PyObjectRef,
    ip: Seq<char>,
    port: u16,
)
    requires
        is_addr_tuple(old, t, ip, port),
        new.grows_from(old),
    ensures
        is_addr_tuple(new, t, ip, port),
{
    let e = elements_of(old.heap(), t)->0;
    assert(new.heap()[t.id as int] == old.heap()[t.id as int]);
    assert(new.heap()[e[0].id as int] == old.heap()[e[0].id as int]);
    assert(new.heap()[e[1].id as int] == old.heap()[e[1].id as int]);
}

/// The class `c` offers, under `name`, a built-in function object of type
/// `t` that runs the socket method `m`.
pub open spec fn offers_method(
    h: Seq<PyObject>,
    c: PyObjectRef,
    name: Seq<char>,
    m: SocketMethod,
    t: PyObjectRef,
) -> bool {
    &&& own_attrs(h, c).dom().contains(name)
    &&& own_attrs(h, c)[name].id < h.len()
    &&& own_attrs(h, c)[name] != c
    &&& h[own_attrs(h, c)[name].id as int].payload == (PyObjectPayload::RustFunction {
        function: NativeFunction::Socket(m),
    })
    &&& h[own_attrs(h, c)[name].id as int].typ == Some(t)
}

/// The names of a module's attributes.
pub open spec fn module_attr_names(h: Seq<PyObject>, m: PyObjectRef) -> Set<Seq<char>> {
    match h[m.id as int].payload {
        PyObjectPayload::Module { scope, .. } => dict_map(h, scope.locals).dom(),
        _ => Set::empty(),
    }
}

/// The module `m` has the attribute `name`, an `int` object with the value
/// `value`.
pub open spec fn exports_int(ctx: &PyContext, m: PyObjectRef, name: Seq<char>, value: int) -> bool {
    &&& attr_lookup(ctx.heap(), m, name) is Some
    &&& ctx.valid(attr_lookup(ctx.heap(), m, name)->0)
    &&& int_of(ctx.heap(), attr_lookup(ctx.heap(), m, name)->0) == Some(value)
    &&& ctx.obj(attr_lookup(ctx.heap(), m, name)->0).typ == Some(ctx.int_type)
}

/// The class `c` offers each of `names` with the method at the same place
/// of `methods`.
pub open spec fn offers_all(
    h: Seq<PyObject>,
    c: PyObjectRef,
    names: Seq<Seq<char>>,
    methods: Seq<SocketMethod>,
    t: PyObjectRef,
) -> bool {
    &&& names.len() == methods.len()
    &&& forall|i: int| 0 <= i < names.len() ==> #[trigger] offers_method(h, c, names[i], methods[i], t)
}

/// Adds to the class `class` a built-in function object for the socket
/// method `m` under `name`, which none of the methods it offers has.
fn add_method(
    ctx: &mut PyContext,
    class: PyObjectRef,
    name: &str,
    m: SocketMethod,
    Ghost(names): Ghost<Seq<Seq<char>>>,
    Ghost(methods): Ghost<Seq<SocketMethod>>,
)
    requires
        old(ctx).wf(),
        is_class(old(ctx).heap(), class),
        offers_all(old(ctx).heap(), class, names, methods, old(ctx).builtin_function_or_method_type),
        own_attrs(old(ctx).heap(), class).dom() == names.to_set(),
        forall|i: int| 0 <= i < names.len() ==> names[i] != name@,
    ensures
        final(ctx).wf(),
        final(ctx).extends(old(ctx)),
        final(ctx).heap().len() == old(ctx).heap().len() + 1,
        is_class(final(ctx).heap(), class),
        class_name(final(ctx).heap(), class) == class_name(old(ctx).heap(), class),
        class_mro(final(ctx).heap(), class) == class_mro(old(ctx).heap(), class),
        final(ctx).obj(class).typ == old(ctx).obj(class).typ,
        own_attrs(final(ctx).heap(), class).dom() == names.push(name@).to_set(),
        offers_all(
            final(ctx).heap(),
            class,
            names.push(name@),
            methods.push(m),
            old(ctx).builtin_function_or_method_type,
        ),
        forall|j: int|
            0 <= j < old(ctx).heap().len() && j != class.id ==> #[trigger] final(ctx).heap()[j]
                == old(ctx).heap()[j],
{
    let ghost t = ctx.builtin_function_or_method_type;
    let ghost h0 = ctx.heap();
    let f = ctx.new_rustfunc(NativeFunction::Socket(m));
    let ghost c1 = *ctx;
    ctx.set_attr(&class, name, f);
    proof {
        assert(ctx.heap()[f.id as int] == c1.heap()[f.id as int]);
        let names2 = names.push(name@);
        let methods2 = methods.push(m);
        assert forall|i: int| 0 <= i < names2.len() implies #[trigger] offers_method(
            ctx.heap(),
            class,
            names2[i],
            methods2[i],
            t,
        ) by {
            if i < names.len() {
                assert(offers_method(h0, class, names[i], methods[i], t));
                let g = own_attrs(h0, class)[names[i]];
                assert(ctx.heap()[g.id as int] == h0[g.id as int]);
            }
        }
        assert(names2.to_set() =~= names.to_set().insert(name@)) by {
            assert forall|x: Seq<char>| names2.to_set().contains(x) implies names.to_set().insert(name@).contains(x) by {
                let i = choose|i: int| 0 <= i < names2.len() && names2[i] == x;
                if i < names.len() {
                    assert(names.contains(x));
                }
            }
            assert forall|x: Seq<char>| names.to_set().insert(name@).contains(x) implies names2.to_set().contains(x) by {
                if x == name@ {
                    assert(names2[names.len() as int] == x);
                } else {
                    let i = choose|i: int| 0 <= i < names.len() && names[i] == x;
                    assert(names2[i] == x);
                }
            }
        }
    }
}

/// The Python names of the methods of the class `socket`.
pub open spec fn socket_method_names() -> Seq<Seq<char>> {
    seq![
        "__new__"@,
        "connect"@,
        "recv"@,
        "send"@,
        "bind"@,
        "accept"@,
        "listen"@,
        "close"@,
        "getsockname"@,
        "sendto"@,
        "recvfrom"@,
    ]
}

/// The methods of the class `socket`, each at the place of its name.
pub open spec fn socket_methods() -> Seq<SocketMethod> {
    seq![
        SocketMethod::New,
        SocketMethod::Connect,
        SocketMethod::Recv,
        SocketMethod::Send,
        SocketMethod::Bind,
        SocketMethod::Accept,
        SocketMethod::Listen,
        SocketMethod::Close,
        SocketMethod::GetSockName,
        SocketMethod::SendTo,
        SocketMethod::RecvFrom,
    ]
}

/// No two methods of the class `socket` share a name.
proof fn lemma_socket_method_names_distinct()
    ensures
        forall|a: int, b: int|
            0 <= a < 11 && 0 <= b < 11 && a != b ==> #[trigger] socket_method_names()[a]
                != #[trigger] socket_method_names()[b],
{
    reveal_strlit("__new__");
    reveal_strlit("connect");
    reveal_strlit("recv");
    reveal_strlit("send");
    reveal_strlit("bind");
    reveal_strlit("accept");
    reveal_strlit("listen");
    reveal_strlit("close");
    reveal_strlit("getsockname");
    reveal_strlit("sendto");
    reveal_strlit("recvfrom");
    let n = socket_method_names();
    assert(n[0].len() == 7 && n[1].len() == 7 && n[2].len() == 4 && n[3].len() == 4
        && n[4].len() == 4 && n[5].len() == 6 && n[6].len() == 6 && n[7].len() == 5
        && n[8].len() == 11 && n[9].len() == 6 && n[10].len() == 8);
    assert(n[0][0] == '_' && n[1][0] == 'c' && n[2][0] == 'r' && n[3][0] == 's' && n[4][0] == 'b'
        && n[5][0] == 'a' && n[6][0] == 'l' && n[9][0] == 's');
}

/// `c` is the class `socket` of type `type_type` with the method resolution
/// order `mro`, whose attributes are built-in function objects of type `t`
/// for the socket methods, each under its Python name.
pub open spec fn is_socket_class(
    h: Seq<PyObject>,
    c: PyObjectRef,
    mro: Seq<PyObjectRef>,
    type_type: PyObjectRef,
    t: PyObjectRef,
) -> bool {
    &&& is_class(h, c)
    &&& class_name(h, c) == "socket"@
    &&& class_mro(h, c) == mro
    &&& h[c.id as int].typ == Some(type_type)
    &&& own_attrs(h, c).dom() == socket_method_names().to_set()
    &&& offers_all(h, c, socket_method_names(), socket_methods(), t)
}

/// The class `socket` stays as it is while objects are appended to the
/// heap and no object of it changes.
proof fn lemma_socket_class_kept(
    h: Seq<PyObject>,
    h2: Seq<PyObject>,
    c: PyObjectRef,
    mro: Seq<PyObjectRef>,
    type_type: PyObjectRef,
    t: PyObjectRef,
)
    requires
        is_socket_class(h, c, mro, type_type, t),
        h.len() <= h2.len(),
        forall|j: int| 0 <= j < h.len() ==> #[trigger] h2[j] == h[j],
    ensures
        is_socket_class(h2, c, mro, type_type, t),
{
    assert(h2[c.id as int] == h[c.id as int]);
    assert forall|i: int| 0 <= i < 11 implies #[trigger] offers_method(
        h2,
        c,
        socket_method_names()[i],
        socket_methods()[i],
        t,
    ) by {
        assert(offers_method(h, c, socket_method_names()[i], socket_methods()[i], t));
        let f = own_attrs(h, c)[socket_method_names()[i]];
        assert(h2[f.id as int] == h[f.id as int]);
    }
}

/// Builds the class `socket` with its methods.
fn make_socket_class(ctx: &mut PyContext) -> (c: PyObjectRef)
    requires
        old(ctx).wf(),
    ensures
        final(ctx).wf(),
        final(ctx).extends(old(ctx)),
        final(ctx).heap().len() > old(ctx).heap().len(),
        forall|j: int|
            0 <= j < old(ctx).heap().len() ==> #[trigger] final(ctx).heap()[j] == old(
                ctx,
            ).heap()[j],
        c.id >= old(ctx).heap().len(),
        is_socket_class(
            final(ctx).heap(),
            c,
            seq![old(ctx).object] + class_mro(old(ctx).heap(), old(ctx).object),
            old(ctx).type_type,
            old(ctx).builtin_function_or_method_type,
        ),
{
    proof {
        lemma_socket_method_names_distinct();
    }
    let ghost c0 = *ctx;
    let ghost t = ctx.builtin_function_or_method_type;
    let base = ctx.object();
    let socket = ctx.new_class("socket", base);
    let ghost c1 = *ctx;
    let names: Vec<&str> = vec![
        "__new__",
        "connect",
        "recv",
        "send",
        "bind",
        "accept",
        "listen",
        "close",
        "getsockname",
        "sendto",
        "recvfrom",
    ];
    let methods: Vec<SocketMethod> = vec![
        SocketMethod::New,
        SocketMethod::Connect,
        SocketMethod::Recv,
        SocketMethod::Send,
        SocketMethod::Bind,
        SocketMethod::Accept,
        SocketMethod::Listen,
        SocketMethod::Close,
        SocketMethod::GetSockName,
        SocketMethod::SendTo,
        SocketMethod::RecvFrom,
    ];
    assert forall|j: int| 0 <= j < 11 implies names@[j]@ == #[trigger] socket_method_names()[j]
        && methods@[j] == socket_methods()[j] by {}
    assert(own_attrs(ctx.heap(), socket).dom() =~= socket_method_names().take(0).to_set());
    let mut i: usize = 0;
    while i < names.len()
        invariant
            names@.len() == 11,
            methods@.len() == 11,
            forall|j: int| 0 <= j < 11 ==> names@[j]@ == #[trigger] socket_method_names()[j],
            forall|j: int| 0 <= j < 11 ==> methods@[j] == #[trigger] socket_methods()[j],
            forall|a: int, b: int|
                0 <= a < 11 && 0 <= b < 11 && a != b ==> #[trigger] socket_method_names()[a]
                    != #[trigger] socket_method_names()[b],
            i <= 11,
            t == c0.builtin_function_or_method_type,
            ctx.wf(),
            ctx.extends(&c0),
            ctx.heap().len() >= c1.heap().len(),
            c1.heap().len() > c0.heap().len(),
            forall|j: int| 0 <= j < c0.heap().len() ==> #[trigger] ctx.heap()[j] == c0.heap()[j],
            socket.id >= c0.heap().len(),
            is_class(ctx.heap(), socket),
            class_name(ctx.heap(), socket) == "socket"@,
            class_mro(ctx.heap(), socket) == seq![c0.object] + class_mro(c0.heap(), c0.object),
            ctx.obj(socket).typ == Some(c0.type_type),
            own_attrs(ctx.heap(), socket).dom() == socket_method_names().take(i as int).to_set(),
            offers_all(
                ctx.heap(),
                socket,
                socket_method_names().take(i as int),
                socket_methods().take(i as int),
                t,
            ),
        decreases 11 - i,
    {
        add_method(
            ctx,
            socket,
            names[i],
            methods[i],
            Ghost(socket_method_names().take(i as int)),
            Ghost(socket_methods().take(i as int)),
        );
        proof {
            assert(socket_method_names().take(i as int).push(names@[i as int]@)
                =~= socket_method_names().take(i + 1));
            assert(socket_methods().take(i as int).push(methods@[i as int])
                =~= socket_methods().take(i + 1));
        }
        i = i + 1;
    }
    proof {
        assert(socket_method_names().take(11) =~= socket_method_names());
        assert(socket_methods().take(11) =~= socket_methods());
    }
    socket
}

/// The `socket` module: the class `socket` with its methods, and the
/// constants `AF_INET`, `SOCK_STREAM` and `SOCK_DGRAM`.
pub fn make_module(ctx: &mut PyContext) -> (module: PyObjectRef)
    requires
        old(ctx).wf(),
    ensures
        final(ctx).wf(),
        final(ctx).extends(old(ctx)),
        final(ctx).valid(module),
        final(ctx).obj(module).typ == Some(old(ctx).module_type),
        final(ctx).obj(module).payload matches PyObjectPayload::Module { name, .. } && name@
            == "socket"@,
        module_attr_names(final(ctx).heap(), module) =~= set![
            "AF_INET"@,
            "SOCK_STREAM"@,
            "SOCK_DGRAM"@,
            "socket"@,
        ],
        exports_int(final(ctx), module, "AF_INET"@, address_family_code(AddressFamily::Inet) as int),
        exports_int(final(ctx), module, "SOCK_STREAM"@, socket_kind_code(SocketKind::Stream) as int),
        exports_int(final(ctx), module, "SOCK_DGRAM"@, socket_kind_code(SocketKind::Dgram) as int),
        attr_lookup(final(ctx).heap(), module, "socket"@) is Some,
        is_socket_class(
            final(ctx).heap(),
            attr_lookup(final(ctx).heap(), module, "socket"@)->0,
            seq![old(ctx).object] + class_mro(old(ctx).heap(), old(ctx).object),
            old(ctx).type_type,
            old(ctx).builtin_function_or_method_type,
        ),
{
    proof {
        reveal_strlit("AF_INET");
        reveal_strlit("SOCK_STREAM");
        reveal_strlit("SOCK_DGRAM");
        reveal_strlit("socket");
        assert("AF_INET"@.len() == 7 && "SOCK_STREAM"@.len() == 11 && "SOCK_DGRAM"@.len() == 10
            && "socket"@.len() == 6);
    }
    let ghost c0 = *ctx;
    let socket = make_socket_class(ctx);
    let ghost c1 = *ctx;
    let af_inet = ctx.new_int(PyInt::from_i64(AddressFamily::Inet.code() as i64));
    let sock_stream = ctx.new_int(PyInt::from_i64(SocketKind::Stream.code() as i64));
    let sock_dgram = ctx.new_int(PyInt::from_i64(SocketKind::Dgram.code() as i64));
    let scope = ctx.new_scope(None);
    let module = ctx.new_module("socket", scope);
    ctx.set_attr(&module, "AF_INET", af_inet);
    ctx.set_attr(&module, "SOCK_STREAM", sock_stream);
    ctx.set_attr(&module, "SOCK_DGRAM", sock_dgram);
    ctx.set_attr(&module, "socket", socket);
    proof {
        lemma_socket_class_kept(
            c1.heap(),
            ctx.heap(),
            socket,
            seq![c0.object] + class_mro(c0.heap(), c0.object),
            c0.type_type,
            c0.builtin_function_or_method_type,
        );
    }
    module
}

} // verus!
