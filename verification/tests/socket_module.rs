use rustpython_vm::args::{ArgCheckError, PyFuncArgs};
use rustpython_vm::bigint::PyInt;
use rustpython_vm::object::{AttributeProtocol, PyContext, PyObjectPayload, PyObjectRef, TypeProtocol};
use rustpython_vm::socket::{
    complete_action, get_addr_tuple, make_module, socket_accept, socket_bind, socket_close,
    socket_connect, socket_getsockname, socket_listen, socket_new, socket_recv, socket_recvfrom,
    socket_send, socket_sendto, ActionOutcome, AddressFamily, Connection, Socket, SocketAction,
    SocketError, SocketKind,
};

fn int_obj(ctx: &mut PyContext, v: i64) -> PyObjectRef {
    ctx.new_int(PyInt::from_i64(v))
}

fn call(args: Vec<PyObjectRef>) -> PyFuncArgs {
    PyFuncArgs::new(args, vec![])
}

/// The `socket` class of a new `socket` module, and a new socket of the
/// given family and kind.
fn new_socket(ctx: &mut PyContext, family: i64, kind: i64) -> (PyObjectRef, PyObjectRef) {
    let module = make_module(ctx);
    let class = ctx.get_attr(&module, "socket").unwrap();
    let f = int_obj(ctx, family);
    let k = int_obj(ctx, kind);
    let s = socket_new(ctx, &call(vec![class, f, k])).ok().unwrap();
    (class, s)
}

fn address(ctx: &mut PyContext, host: &str, port: i64) -> PyObjectRef {
    let h = ctx.new_str(String::from(host));
    let p = int_obj(ctx, port);
    ctx.new_tuple(vec![h, p])
}

#[test]
fn codes_round_trip() {
    for f in [AddressFamily::Unix, AddressFamily::Inet, AddressFamily::Inet6] {
        assert_eq!(AddressFamily::from_i32(f.code()).ok(), Some(f));
    }
    for k in [SocketKind::Stream, SocketKind::Dgram] {
        assert_eq!(SocketKind::from_i32(k.code()).ok(), Some(k));
    }
    assert_eq!(AddressFamily::Inet.code(), 2);
    assert_eq!(SocketKind::Stream.code(), 1);
    assert_eq!(SocketKind::Dgram.code(), 2);
    assert!(matches!(AddressFamily::from_i32(0), Err(SocketError::UnknownAddressFamily(0))));
    assert!(matches!(AddressFamily::from_i32(4), Err(SocketError::UnknownAddressFamily(4))));
    assert!(matches!(SocketKind::from_i32(3), Err(SocketError::UnknownSocketKind(3))));
}

#[test]
fn module_exports_constants_and_class() {
    let mut ctx = PyContext::new();
    let module = make_module(&mut ctx);
    assert_eq!(module.typ(&ctx), ctx.module_type());
    assert_eq!(ctx.get_object(module).to_string(&ctx), "module 'socket'");
    for (name, value) in [("AF_INET", "2"), ("SOCK_STREAM", "1"), ("SOCK_DGRAM", "2")] {
        let v = ctx.get_attr(&module, name).unwrap();
        assert_eq!(v.typ(&ctx), ctx.int_type());
        assert_eq!(ctx.get_int(&v).to_decimal_string(), value);
    }
    let class = ctx.get_attr(&module, "socket").unwrap();
    assert_eq!(ctx.get_object(class).to_string(&ctx), "type object 'socket'");
    for name in [
        "__new__", "connect", "recv", "send", "bind", "accept", "listen", "close", "getsockname",
        "sendto", "recvfrom",
    ] {
        let f = class.get_attr(&ctx, &String::from(name)).unwrap();
        assert_eq!(f.typ(&ctx), ctx.builtin_function_or_method_type());
        assert!(matches!(ctx.get_object(f).payload, PyObjectPayload::RustFunction { .. }));
    }
    assert!(!class.has_attr(&ctx, &String::from("shutdown")));
    assert_eq!(ctx.get_attr(&module, "AF_UNIX"), None);
}

#[test]
fn new_socket_has_no_connection() {
    let mut ctx = PyContext::new();
    let (class, s) = new_socket(&mut ctx, 2, 1);
    assert_eq!(s.typ(&ctx), class);
    assert_eq!(
        ctx.get_socket(&s),
        Socket { address_family: AddressFamily::Inet, socket_kind: SocketKind::Stream, con: None }
    );
}

#[test]
fn new_socket_refuses_unknown_codes_and_wrong_types() {
    let mut ctx = PyContext::new();
    let module = make_module(&mut ctx);
    let class = ctx.get_attr(&module, "socket").unwrap();
    let bad = int_obj(&mut ctx, 9);
    let one = int_obj(&mut ctx, 1);
    let two = int_obj(&mut ctx, 2);
    assert!(matches!(
        socket_new(&mut ctx, &call(vec![class, bad, one])),
        Err(SocketError::UnknownAddressFamily(9))
    ));
    assert!(matches!(
        socket_new(&mut ctx, &call(vec![class, two, bad])),
        Err(SocketError::UnknownSocketKind(9))
    ));
    let text = ctx.new_str(String::from("x"));
    let int_type = ctx.int_type();
    let str_type = ctx.str_type();
    match socket_new(&mut ctx, &call(vec![class, text, one])) {
        Err(SocketError::Arg(e)) => {
            assert_eq!(e, ArgCheckError::WrongType { index: 1, expected: int_type, actual: str_type })
        }
        _ => panic!("expected a type error"),
    }
    assert!(matches!(
        socket_new(&mut ctx, &call(vec![class, two])),
        Err(SocketError::Arg(ArgCheckError::WrongCount { expected: 3, got: 2 }))
    ));
}

#[test]
fn tcp_connect_then_send_then_close() {
    let mut ctx = PyContext::new();
    let (_, s) = new_socket(&mut ctx, 2, 1);
    let addr = address(&mut ctx, "127.0.0.1", 8080);
    let action = socket_connect(&ctx, &call(vec![s, addr])).ok().unwrap();
    assert!(matches!(&action, SocketAction::TcpConnect { address } if address == "127.0.0.1:8080"));
    let data = ctx.new_bytes(vec![1, 2, 3]);
    assert!(matches!(socket_send(&ctx, &call(vec![s, data])), Err(SocketError::TypeError)));
    let r = complete_action(&mut ctx, &s, action, ActionOutcome::Done).ok().unwrap();
    assert_eq!(r, ctx.none());
    assert_eq!(ctx.get_socket(&s).con, Some(Connection::TcpStream));
    match socket_send(&ctx, &call(vec![s, data])) {
        Ok(SocketAction::Send { data }) => assert_eq!(data, vec![1, 2, 3]),
        _ => panic!("expected a send"),
    }
    let closed = socket_close(&mut ctx, &call(vec![s])).ok().unwrap();
    assert_eq!(closed, ctx.none());
    assert_eq!(ctx.get_socket(&s).con, None);
    assert!(matches!(socket_send(&ctx, &call(vec![s, data])), Err(SocketError::TypeError)));
    let size = int_obj(&mut ctx, 4);
    assert!(matches!(socket_recv(&ctx, &call(vec![s, size])), Err(SocketError::TypeError)));
    assert!(matches!(socket_getsockname(&ctx, &call(vec![s])), Err(SocketError::TypeError)));
    assert!(matches!(socket_accept(&ctx, &call(vec![s])), Err(SocketError::TypeError)));
}

#[test]
fn failed_action_is_an_os_error_and_changes_nothing() {
    let mut ctx = PyContext::new();
    let (_, s) = new_socket(&mut ctx, 2, 1);
    let addr = address(&mut ctx, "127.0.0.1", 1);
    let action = socket_connect(&ctx, &call(vec![s, addr])).ok().unwrap();
    match complete_action(&mut ctx, &s, action, ActionOutcome::Failed(String::from("refused"))) {
        Err(SocketError::OsError(text)) => assert_eq!(text, "refused"),
        _ => panic!("expected an OS error"),
    }
    assert_eq!(ctx.get_socket(&s).con, None);
}

#[test]
fn udp_connect_needs_a_bound_socket() {
    let mut ctx = PyContext::new();
    let (_, s) = new_socket(&mut ctx, 2, 2);
    let addr = address(&mut ctx, "127.0.0.1", 9000);
    assert!(matches!(socket_connect(&ctx, &call(vec![s, addr])), Err(SocketError::TypeError)));
    let bind = socket_bind(&ctx, &call(vec![s, addr])).ok().unwrap();
    assert!(matches!(&bind, SocketAction::UdpBind { address } if address == "127.0.0.1:9000"));
    complete_action(&mut ctx, &s, bind, ActionOutcome::Done).ok().unwrap();
    assert_eq!(ctx.get_socket(&s).con, Some(Connection::UdpSocket));
    assert!(matches!(
        socket_connect(&ctx, &call(vec![s, addr])),
        Ok(SocketAction::UdpConnect { address }) if address == "127.0.0.1:9000"
    ));
}

#[test]
fn tcp_bind_listen_accept() {
    let mut ctx = PyContext::new();
    let (class, s) = new_socket(&mut ctx, 2, 1);
    let addr = address(&mut ctx, "0.0.0.0", 7000);
    let bind = socket_bind(&ctx, &call(vec![s, addr])).ok().unwrap();
    assert!(matches!(&bind, SocketAction::TcpBind { address } if address == "0.0.0.0:7000"));
    complete_action(&mut ctx, &s, bind, ActionOutcome::Done).ok().unwrap();
    assert_eq!(ctx.get_socket(&s).con, Some(Connection::TcpListener));
    let backlog = int_obj(&mut ctx, 5);
    assert_eq!(socket_listen(&ctx, &call(vec![s, backlog])).ok(), Some(ctx.none()));
    let accept = socket_accept(&ctx, &call(vec![s])).ok().unwrap();
    assert!(matches!(accept, SocketAction::Accept));
    let pair = complete_action(
        &mut ctx,
        &s,
        accept,
        ActionOutcome::Accepted { ip: String::from("10.0.0.2"), port: 5555 },
    )
    .ok()
    .unwrap();
    assert_eq!(pair.typ(&ctx), ctx.tuple_type());
    let e = ctx.get_elements(&pair);
    assert_eq!(e.len(), 2);
    assert_eq!(e[0].typ(&ctx), class);
    assert_eq!(ctx.get_socket(&e[0]).con, Some(Connection::TcpStream));
    let peer = ctx.get_elements(&e[1]);
    assert_eq!(ctx.get_str(&peer[0]), "10.0.0.2");
    assert_eq!(ctx.get_int(&peer[1]).to_decimal_string(), "5555");
}

#[test]
fn recv_and_recvfrom_give_bytes() {
    let mut ctx = PyContext::new();
    let (_, s) = new_socket(&mut ctx, 2, 2);
    let size = int_obj(&mut ctx, 16);
    assert!(matches!(socket_recvfrom(&ctx, &call(vec![s, size])), Err(SocketError::TypeError)));
    let mut socket = ctx.get_socket(&s);
    socket.con = Some(Connection::UdpSocket);
    ctx.set_socket(&s, socket);
    assert!(matches!(socket_recv(&ctx, &call(vec![s, size])), Ok(SocketAction::Recv { size: 16 })));
    let action = socket_recvfrom(&ctx, &call(vec![s, size])).ok().unwrap();
    assert!(matches!(action, SocketAction::RecvFrom { size: 16 }));
    let r = complete_action(
        &mut ctx,
        &s,
        action,
        ActionOutcome::ReceivedFrom { data: vec![7, 8], ip: String::from("1.2.3.4"), port: 53 },
    )
    .ok()
    .unwrap();
    let e = ctx.get_elements(&r);
    assert_eq!(e[0].typ(&ctx), ctx.bytes_type());
    let mut buffer = vec![7, 8];
    buffer.resize(16, 0);
    assert_eq!(ctx.get_bytes(&e[0]), buffer);
    let from = ctx.get_elements(&e[1]);
    assert_eq!(ctx.get_str(&from[0]), "1.2.3.4");
    assert_eq!(ctx.get_int(&from[1]).to_decimal_string(), "53");
    let received = complete_action(
        &mut ctx,
        &s,
        SocketAction::Recv { size: 3 },
        ActionOutcome::Received { data: vec![1, 2, 3] },
    )
    .ok()
    .unwrap();
    assert_eq!(ctx.get_bytes(&received), vec![1, 2, 3]);
}

#[test]
fn sendto_binds_an_unbound_datagram_socket() {
    let mut ctx = PyContext::new();
    let (_, s) = new_socket(&mut ctx, 2, 2);
    let data = ctx.new_bytes(vec![9]);
    let addr = address(&mut ctx, "127.0.0.1", 4000);
    let action = socket_sendto(&ctx, &call(vec![s, data, addr])).ok().unwrap();
    assert!(matches!(
        &action,
        SocketAction::BindAndSendTo { data, address } if *data == vec![9] && address == "127.0.0.1:4000"
    ));
    complete_action(&mut ctx, &s, action, ActionOutcome::Done).ok().unwrap();
    assert_eq!(ctx.get_socket(&s).con, Some(Connection::UdpSocket));
    assert!(matches!(
        socket_sendto(&ctx, &call(vec![s, data, addr])),
        Ok(SocketAction::SendTo { data, address }) if data == vec![9] && address == "127.0.0.1:4000"
    ));
}

#[test]
fn sendto_on_a_stream_is_not_implemented() {
    let mut ctx = PyContext::new();
    let (_, s) = new_socket(&mut ctx, 2, 1);
    let data = ctx.new_bytes(vec![9]);
    let addr = address(&mut ctx, "127.0.0.1", 4000);
    assert!(matches!(socket_sendto(&ctx, &call(vec![s, data, addr])), Err(SocketError::NotImplemented)));
}

#[test]
fn address_tuple_with_wrong_types_is_refused() {
    let mut ctx = PyContext::new();
    let (_, s) = new_socket(&mut ctx, 2, 1);
    let p = int_obj(&mut ctx, 80);
    let bad = ctx.new_tuple(vec![p, p]);
    let int_type = ctx.int_type();
    let str_type = ctx.str_type();
    match socket_connect(&ctx, &call(vec![s, bad])) {
        Err(SocketError::Arg(e)) => {
            assert_eq!(e, ArgCheckError::WrongType { index: 0, expected: str_type, actual: int_type })
        }
        _ => panic!("expected a type error"),
    }
}

#[test]
fn getsockname_gives_the_local_address() {
    let mut ctx = PyContext::new();
    let (_, s) = new_socket(&mut ctx, 2, 1);
    let mut socket = ctx.get_socket(&s);
    socket.con = Some(Connection::TcpStream);
    ctx.set_socket(&s, socket);
    let action = socket_getsockname(&ctx, &call(vec![s])).ok().unwrap();
    assert!(matches!(action, SocketAction::LocalAddr));
    let t = complete_action(
        &mut ctx,
        &s,
        action,
        ActionOutcome::Address { ip: String::from("127.0.0.1"), port: 40000 },
    )
    .ok()
    .unwrap();
    let e = ctx.get_elements(&t);
    assert_eq!(ctx.get_str(&e[0]), "127.0.0.1");
    assert_eq!(ctx.get_int(&e[1]).to_decimal_string(), "40000");
    let direct = get_addr_tuple(&mut ctx, String::from("::1"), 0);
    assert_eq!(direct.typ(&ctx), ctx.tuple_type());
}

#[test]
fn closing_one_socket_leaves_another() {
    let mut ctx = PyContext::new();
    let (class, a) = new_socket(&mut ctx, 2, 1);
    let family = int_obj(&mut ctx, 2);
    let kind = int_obj(&mut ctx, 1);
    let b = socket_new(&mut ctx, &call(vec![class, family, kind])).ok().unwrap();
    for s in [a, b] {
        let mut socket = ctx.get_socket(&s);
        socket.con = Some(Connection::TcpStream);
        ctx.set_socket(&s, socket);
    }
    socket_close(&mut ctx, &call(vec![a])).ok().unwrap();
    assert_eq!(ctx.get_socket(&a).con, None);
    assert_eq!(ctx.get_socket(&b).con, Some(Connection::TcpStream));
}

fn with_connection(ctx: &mut PyContext, s: PyObjectRef, con: Connection) {
    let mut socket = ctx.get_socket(&s);
    socket.con = Some(con);
    ctx.set_socket(&s, socket);
}

fn is_unsupported<T>(r: Result<T, SocketError>) -> bool {
    matches!(r, Err(SocketError::OsError(text)) if text == "oh no!")
}

#[test]
fn connections_refuse_operations_of_other_kinds() {
    let mut ctx = PyContext::new();
    let (_, s) = new_socket(&mut ctx, 2, 1);
    let size = int_obj(&mut ctx, 4);
    let data = ctx.new_bytes(vec![1]);
    with_connection(&mut ctx, s, Connection::TcpStream);
    assert!(is_unsupported(socket_accept(&ctx, &call(vec![s]))));
    assert!(is_unsupported(socket_recvfrom(&ctx, &call(vec![s, size]))));
    assert!(matches!(socket_recv(&ctx, &call(vec![s, size])), Ok(SocketAction::Recv { size: 4 })));
    with_connection(&mut ctx, s, Connection::TcpListener);
    assert!(is_unsupported(socket_recv(&ctx, &call(vec![s, size]))));
    assert!(is_unsupported(socket_send(&ctx, &call(vec![s, data]))));
    assert!(is_unsupported(socket_recvfrom(&ctx, &call(vec![s, size]))));
    assert!(matches!(socket_getsockname(&ctx, &call(vec![s])), Ok(SocketAction::LocalAddr)));
    with_connection(&mut ctx, s, Connection::UdpSocket);
    assert!(is_unsupported(socket_accept(&ctx, &call(vec![s]))));
    let (_, d) = new_socket(&mut ctx, 2, 2);
    let addr = address(&mut ctx, "127.0.0.1", 4000);
    with_connection(&mut ctx, d, Connection::TcpStream);
    assert!(is_unsupported(socket_sendto(&ctx, &call(vec![d, data, addr]))));
}

#[test]
fn received_datagram_fills_the_whole_buffer() {
    let mut ctx = PyContext::new();
    let (_, s) = new_socket(&mut ctx, 2, 2);
    with_connection(&mut ctx, s, Connection::UdpSocket);
    let r = complete_action(
        &mut ctx,
        &s,
        SocketAction::RecvFrom { size: 4 },
        ActionOutcome::ReceivedFrom { data: vec![5], ip: String::from("1.1.1.1"), port: 1 },
    )
    .ok()
    .unwrap();
    let e = ctx.get_elements(&r);
    assert_eq!(ctx.get_bytes(&e[0]), vec![5, 0, 0, 0]);
}

#[test]
fn reading_no_bytes_works_on_any_connection() {
    let mut ctx = PyContext::new();
    let (_, s) = new_socket(&mut ctx, 2, 1);
    with_connection(&mut ctx, s, Connection::TcpListener);
    let zero = int_obj(&mut ctx, 0);
    let action = socket_recv(&ctx, &call(vec![s, zero])).ok().unwrap();
    assert!(matches!(action, SocketAction::Recv { size: 0 }));
    let r = complete_action(&mut ctx, &s, action, ActionOutcome::Received { data: vec![] })
        .ok()
        .unwrap();
    assert_eq!(r.typ(&ctx), ctx.bytes_type());
    assert_eq!(ctx.get_bytes(&r), Vec::<u8>::new());
}
