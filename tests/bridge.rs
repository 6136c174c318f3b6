use std::cell::RefCell;
use std::rc::Rc;

use aqua_skeleton::aqua::{aqua_set_kos_functions, c_string, query_device, raw_send_device, Bridge, Device, Word};
use aqua_skeleton::win::{Win, CMD_CAPTION, CMD_CLOSE, CMD_CREATE};

#[derive(Debug, PartialEq)]
enum Seen {
    Query(u64, Vec<u8>),
    Send(u64, Device, u64, Vec<Word>),
}

type Log = Rc<RefCell<Vec<Seen>>>;

fn stub_bridge(
    log: &Log,
) -> Bridge<impl Fn(u64, Vec<u8>) -> u64, impl Fn(u64, Device, u64, Vec<Word>) -> u64> {
    let ql = log.clone();
    let sl = log.clone();
    let query = move |reserved: u64, name: Vec<u8>| -> u64 {
        let r = if name == b"aquabsd.alps.win\0".to_vec() { 42 } else { 5 };
        ql.borrow_mut().push(Seen::Query(reserved, name));
        r
    };
    let send = move |reserved: u64, device: Device, cmd: u64, data: Vec<Word>| -> u64 {
        let r = if device == 42 && cmd == 0x6377 && data == vec![Word::Int(800), Word::Int(600)] {
            7
        } else {
            100 + data.len() as u64
        };
        sl.borrow_mut().push(Seen::Send(reserved, device, cmd, data));
        r
    };
    let mut bridge = Bridge::new();
    aqua_set_kos_functions(&mut bridge, query, send);
    bridge
}

#[test]
fn window_lifecycle_scenario() {
    let log: Log = Rc::new(RefCell::new(Vec::new()));
    let mut bridge = stub_bridge(&log);
    let mut win = Win::new(&mut bridge, 800, 600);
    assert_eq!(win.handle(), 7);
    assert_eq!(win.device(), 42);
    win.caption(&mut bridge, "Test");
    win.close(&mut bridge);
    let seen = log.borrow();
    assert_eq!(
        *seen,
        vec![
            Seen::Query(0, b"aquabsd.alps.win\0".to_vec()),
            Seen::Send(0, 42, 0x6377, vec![Word::Int(800), Word::Int(600)]),
            Seen::Send(0, 42, 0x7363, vec![Word::Int(7), Word::Text(b"Test\0".to_vec())]),
            Seen::Send(0, 42, 0x6463, vec![Word::Int(7)]),
        ]
    );
}

#[test]
fn query_passes_null_terminated_name() {
    let log: Log = Rc::new(RefCell::new(Vec::new()));
    let mut bridge = stub_bridge(&log);
    assert_eq!(query_device(&mut bridge, "aquabsd.alps.win"), 42);
    assert_eq!(query_device(&mut bridge, "other"), 5);
    assert_eq!(query_device(&mut bridge, "é"), 5);
    let seen = log.borrow();
    assert_eq!(
        *seen,
        vec![
            Seen::Query(0, b"aquabsd.alps.win\0".to_vec()),
            Seen::Query(0, b"other\0".to_vec()),
            Seen::Query(0, vec![0xc3, 0xa9, 0]),
        ]
    );
}

#[test]
fn send_passes_payload_in_order() {
    let log: Log = Rc::new(RefCell::new(Vec::new()));
    let mut bridge = stub_bridge(&log);
    let data = || vec![Word::Int(3), Word::Text(vec![b'a', 0]), Word::Int(u64::MAX)];
    assert_eq!(raw_send_device(&mut bridge, 9, 0xffff, data()), 103);
    assert_eq!(raw_send_device(&mut bridge, 9, 1, Vec::new()), 100);
    let seen = log.borrow();
    assert_eq!(*seen, vec![Seen::Send(0, 9, 0xffff, data()), Seen::Send(0, 9, 1, Vec::new())]);
}

#[test]
fn host_answer_is_the_window_handle() {
    let log: Log = Rc::new(RefCell::new(Vec::new()));
    let mut bridge = stub_bridge(&log);
    let win = Win::new(&mut bridge, 640, 480);
    assert_eq!(win.device(), 42);
    assert_eq!(win.handle(), 102);
    assert_eq!(win.x_res(), 640);
    assert_eq!(win.y_res(), 480);
    win.close(&mut bridge);
    assert_eq!(log.borrow()[2], Seen::Send(0, 42, 0x6463, vec![Word::Int(102)]));
}

fn closes(seen: &[Seen], handle: u64) -> usize {
    seen.iter()
        .filter(|c| matches!(c, Seen::Send(_, _, 0x6463, d) if *d == vec![Word::Int(handle)]))
        .count()
}

#[test]
fn one_close_without_captions() {
    let log: Log = Rc::new(RefCell::new(Vec::new()));
    let mut bridge = stub_bridge(&log);
    let win = Win::new(&mut bridge, 800, 600);
    assert_eq!(closes(&log.borrow(), 7), 0);
    win.close(&mut bridge);
    let seen = log.borrow();
    assert_eq!(seen.len(), 3);
    assert_eq!(closes(&seen, 7), 1);
    assert_eq!(seen[2], Seen::Send(0, 42, 0x6463, vec![Word::Int(7)]));
}

#[test]
fn one_close_after_many_captions() {
    let log: Log = Rc::new(RefCell::new(Vec::new()));
    let mut bridge = stub_bridge(&log);
    let mut win = Win::new(&mut bridge, 800, 600);
    win.caption(&mut bridge, "one");
    win.caption(&mut bridge, "two");
    win.caption(&mut bridge, "");
    assert_eq!(closes(&log.borrow(), 7), 0);
    win.close(&mut bridge);
    let seen = log.borrow();
    assert_eq!(seen.len(), 6);
    assert_eq!(closes(&seen, 7), 1);
    assert_eq!(seen[4], Seen::Send(0, 42, 0x7363, vec![Word::Int(7), Word::Text(vec![0])]));
    assert_eq!(seen[5], Seen::Send(0, 42, 0x6463, vec![Word::Int(7)]));
}

#[test]
fn bridge_is_ready_only_after_initialization() {
    let log: Log = Rc::new(RefCell::new(Vec::new()));
    let fresh: Bridge<fn(u64, Vec<u8>) -> u64, fn(u64, Device, u64, Vec<Word>) -> u64> = Bridge::new();
    assert!(!fresh.is_ready());
    let bridge = stub_bridge(&log);
    assert!(bridge.is_ready());
    assert!(log.borrow().is_empty());
}

#[test]
fn command_codes() {
    assert_eq!(CMD_CREATE, 0x6377);
    assert_eq!(CMD_CAPTION, 0x7363);
    assert_eq!(CMD_CLOSE, 0x6463);
}

#[test]
fn c_string_appends_one_zero() {
    assert_eq!(c_string(""), vec![0]);
    assert_eq!(c_string("Bob"), vec![b'B', b'o', b'b', 0]);
    assert_eq!(c_string("ü!"), vec![0xc3, 0xbc, b'!', 0]);
}
