//! The host bridge: the two host functions, the command protocol spoken
//! through them, and a ghost record of every call handed to the host.
use vstd::prelude::*;
use vstd::utf8::encode_utf8;

verus! {

/// An opaque host-assigned handle of a named device.
pub type Device = u64;

/// One 64-bit word of a command payload. A `Text` word is a null-terminated
/// byte buffer: the host receives its address and reads it during the call.
#[derive(Debug, PartialEq, Eq)]
pub enum Word {
    Int(u64),
    Text(Vec<u8>),
}

/// What a payload word stands for, as the host reads it.
pub enum WordView {
    Int(u64),
    Text(Seq<u8>),
}

impl View for Word {
    type V = WordView;

    open spec fn view(&self) -> WordView {
        match self {
            Word::Int(n) => WordView::Int(*n),
            Word::Text(b) => WordView::Text(b@),
        }
    }
}

/// A call handed to the host, with the arguments the host sees.
pub enum HostCall {
    Query { reserved: u64, name: Seq<u8> },
    Send { reserved: u64, device: Device, cmd: u64, payload: Seq<WordView> },
}

/// The bytes of `s` as the host reads a name: UTF-8 followed by one zero byte.
pub open spec fn c_bytes(s: Seq<char>) -> Seq<u8> {
    encode_utf8(s).push(0u8)
}

/// A name the host can read whole: no character of it ends the buffer early.
pub open spec fn valid_name(s: Seq<char>) -> bool {
    !s.contains('\0')
}

/// A device lookup of `name`, as the host receives it.
pub open spec fn query_call(name: Seq<char>) -> HostCall {
    HostCall::Query { reserved: 0, name: c_bytes(name) }
}

/// A command sent to `device`, as the host receives it.
pub open spec fn send_call(device: Device, cmd: u16, payload: Seq<WordView>) -> HostCall {
    HostCall::Send { reserved: 0, device, cmd: cmd as u64, payload }
}

/// What each of `words` stands for.
pub open spec fn views(words: Seq<Word>) -> Seq<WordView> {
    words.map_values(|w: Word| w@)
}

/// The host context: both host functions once the host has handed them over,
/// and the calls made through them so far.
pub struct Bridge<Q, S> {
    query: Option<Q>,
    send: Option<S>,
    calls: Ghost<Seq<HostCall>>,
}

impl<Q, S> Bridge<Q, S> {
    /// Both host functions are set.
    pub closed spec fn is_initialized(&self) -> bool {
        self.query.is_some() && self.send.is_some()
    }

    /// The host's device lookup, once initialized.
    pub closed spec fn query_fn(&self) -> Q {
        self.query.unwrap()
    }

    /// The host's command dispatch, once initialized.
    pub closed spec fn send_fn(&self) -> S {
        self.send.unwrap()
    }

    /// Every call handed to the host through this bridge, oldest first.
    pub closed spec fn log(&self) -> Seq<HostCall> {
        self.calls@
    }

    /// A bridge whose host functions are not set yet.
    pub fn new() -> (r: Self)
        ensures
            !r.is_initialized(),
            r.log() == Seq::<HostCall>::empty(),
    {
        Bridge { query: None, send: None, calls: Ghost(Seq::empty()) }
    }

    /// Whether the host has handed over its functions.
    pub fn is_ready(&self) -> (r: bool)
        ensures
            r == self.is_initialized(),
    {
        self.query.is_some() && self.send.is_some()
    }
}

/// The host may call both of its functions with any arguments.
pub open spec fn host_total<Q, S>(q: Q, s: S) -> bool
    where
        Q: Fn(u64, Vec<u8>) -> u64,
        S: Fn(u64, Device, u64, Vec<Word>) -> u64,
{
    &&& forall|a: u64, n: Vec<u8>| #[trigger] call_requires(q, (a, n))
    &&& forall|a: u64, d: Device, c: u64, p: Vec<Word>| #[trigger] call_requires(s, (a, d, c, p))
}

/// A bridge through which calls may be made.
pub open spec fn ready<Q, S>(b: &Bridge<Q, S>) -> bool
    where
        Q: Fn(u64, Vec<u8>) -> u64,
        S: Fn(u64, Device, u64, Vec<Word>) -> u64,
{
    b.is_initialized() && host_total(b.query_fn(), b.send_fn())
}

/// Stores the host's two functions. The host does this once, before any
/// other call through the bridge.
pub fn aqua_set_kos_functions<Q, S>(bridge: &mut Bridge<Q, S>, kos_query_device: Q, kos_send_device: S)
    where
        Q: Fn(u64, Vec<u8>) -> u64,
        S: Fn(u64, Device, u64, Vec<Word>) -> u64,
    requires
        !old(bridge).is_initialized(),
        host_total(kos_query_device, kos_send_device),
    ensures
        final(bridge).is_initialized(),
        ready(final(bridge)),
        final(bridge).query_fn() == kos_query_device,
        final(bridge).send_fn() == kos_send_device,
        final(bridge).log() == old(bridge).log(),
{
    bridge.query = Some(kos_query_device);
    bridge.send = Some(kos_send_device);
}

/// The bytes of `name` followed by a zero byte, in a buffer of their own.
pub fn c_string(name: &str) -> (r: Vec<u8>)
    ensures
        r@ == c_bytes(name@),
{
    let bytes = name.as_bytes();
    let mut r: Vec<u8> = Vec::new();
    let mut i: usize = 0;
    while i < bytes.len()
        invariant
            bytes@ == encode_utf8(name@),
            i <= bytes@.len(),
            r@ == bytes@.subrange(0, i as int),
        decreases bytes@.len() - i,
    {
        r.push(bytes[i]);
        i = i + 1;
    }
    assert(r@ == bytes@);
    r.push(0u8);
    r
}

/// Looks up the device named `name`: the host's lookup receives a zero
/// reserved word and the name as a null-terminated buffer, and its answer is
/// returned as it came.
pub fn query_device<Q, S>(bridge: &mut Bridge<Q, S>, name: &str) -> (r: Device)
    where
        Q: Fn(u64, Vec<u8>) -> u64,
        S: Fn(u64, Device, u64, Vec<Word>) -> u64,
    requires
        ready(old(bridge)),
        valid_name(name@),
    ensures
        exists|buf: Vec<u8>|
            buf@ == c_bytes(name@) && #[trigger] call_ensures(old(bridge).query_fn(), (0u64, buf), r),
        final(bridge).log() == old(bridge).log().push(query_call(name@)),
        final(bridge).query_fn() == old(bridge).query_fn(),
        final(bridge).send_fn() == old(bridge).send_fn(),
        ready(final(bridge)),
{
    let buf = c_string(name);
    let q = bridge.query.as_ref().unwrap();
    let r = q(0, buf);
    bridge.calls = Ghost(bridge.calls@.push(query_call(name@)));
    r
}

/// Sends command `cmd` with payload `data` to `device`: the host's dispatch
/// receives a zero reserved word, the device, the command widened to 64 bits
/// and the payload words in order, and its answer is returned as it came.
pub fn raw_send_device<Q, S>(bridge: &mut Bridge<Q, S>, device: Device, cmd: u16, data: Vec<Word>) -> (r: u64)
    where
        Q: Fn(u64, Vec<u8>) -> u64,
        S: Fn(u64, Device, u64, Vec<Word>) -> u64,
    requires
        ready(old(bridge)),
    ensures
        call_ensures(old(bridge).send_fn(), (0u64, device, cmd as u64, data), r),
        final(bridge).log() == old(bridge).log().push(send_call(device, cmd, views(data@))),
        final(bridge).query_fn() == old(bridge).query_fn(),
        final(bridge).send_fn() == old(bridge).send_fn(),
        ready(final(bridge)),
{
    let ghost payload = views(data@);
    let s = bridge.send.as_ref().unwrap();
    let r = s(0, device, cmd as u64, data);
    bridge.calls = Ghost(bridge.calls@.push(send_call(device, cmd, payload)));
    r
}

} // verus!
