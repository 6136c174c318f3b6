//! A display window: one host resource, opened on construction and closed
//! exactly once, by `close`, which consumes the window.
use vstd::prelude::*;
use crate::aqua::{
    Bridge, Device, HostCall, Word, WordView, c_bytes, c_string, query_call, query_device,
    raw_send_device, ready, send_call, valid_name, views,
};

verus! {

/// Command that creates a window; payload: width, height.
pub const CMD_CREATE: u16 = 0x6377;

/// Command that sets a window's caption; payload: window, caption text.
pub const CMD_CAPTION: u16 = 0x7363;

/// Command that closes a window; payload: window.
pub const CMD_CLOSE: u16 = 0x6463;

/// The name of the window device class.
pub open spec fn win_class() -> Seq<char> {
    "aquabsd.alps.win"@
}

/// Creation of a window of `x_res` by `y_res` through device `dev`.
pub open spec fn create_call(dev: Device, x_res: u32, y_res: u32) -> HostCall {
    send_call(dev, CMD_CREATE, seq![WordView::Int(x_res as u64), WordView::Int(y_res as u64)])
}

/// Setting the caption of window `win` of device `dev` to `name`.
pub open spec fn caption_call(dev: Device, win: u64, name: Seq<char>) -> HostCall {
    send_call(dev, CMD_CAPTION, seq![WordView::Int(win), WordView::Text(c_bytes(name))])
}

/// Closing window `win` of device `dev`.
pub open spec fn close_call(dev: Device, win: u64) -> HostCall {
    send_call(dev, CMD_CLOSE, seq![WordView::Int(win)])
}

/// How many of `calls` close window `win` of device `dev`.
pub open spec fn closes_of(calls: Seq<HostCall>, dev: Device, win: u64) -> nat
    decreases calls.len(),
{
    if calls.len() == 0 {
        0
    } else {
        closes_of(calls.drop_last(), dev, win) + if calls.last() == close_call(dev, win) {
            1nat
        } else {
            0nat
        }
    }
}

/// The calls of one window's life: `Win::new`, then `caption` once for each
/// of `captions`, then `close`.
pub open spec fn session(
    dev: Device,
    win: u64,
    x_res: u32,
    y_res: u32,
    captions: Seq<Seq<char>>,
) -> Seq<HostCall> {
    seq![query_call(win_class()), create_call(dev, x_res, y_res)]
        + captions.map_values(|c: Seq<char>| caption_call(dev, win, c))
        + seq![close_call(dev, win)]
}

proof fn lemma_no_close_before(dev: Device, win: u64, x_res: u32, y_res: u32, captions: Seq<Seq<char>>)
    ensures
        closes_of(
            seq![query_call(win_class()), create_call(dev, x_res, y_res)]
                + captions.map_values(|c: Seq<char>| caption_call(dev, win, c)),
            dev,
            win,
        ) == 0,
    decreases captions.len(),
{
    let opened = seq![query_call(win_class()), create_call(dev, x_res, y_res)];
    let calls = opened + captions.map_values(|c: Seq<char>| caption_call(dev, win, c));
    if captions.len() == 0 {
        assert(calls =~= opened);
        assert(calls.drop_last().drop_last() =~= Seq::<HostCall>::empty());
        assert(calls.drop_last() =~= seq![query_call(win_class())]);
        assert(create_call(dev, x_res, y_res) != close_call(dev, win));
        assert(closes_of(Seq::<HostCall>::empty(), dev, win) == 0);
        assert(calls.drop_last().last() == query_call(win_class()));
        assert(closes_of(calls.drop_last(), dev, win) == 0);
    } else {
        let fewer = captions.drop_last();
        lemma_no_close_before(dev, win, x_res, y_res, fewer);
        assert(calls.drop_last() =~= opened + fewer.map_values(|c: Seq<char>| caption_call(dev, win, c)));
        assert(calls.last() == caption_call(dev, win, captions.last()));
        assert(caption_call(dev, win, captions.last()) != close_call(dev, win));
    }
}

/// Whatever captions are set in between, the life of a window issues exactly
/// one closing command for it, and that command comes last, after the
/// window was created.
pub proof fn lemma_closed_exactly_once(
    dev: Device,
    win: u64,
    x_res: u32,
    y_res: u32,
    captions: Seq<Seq<char>>,
)
    ensures
        closes_of(session(dev, win, x_res, y_res, captions), dev, win) == 1,
        session(dev, win, x_res, y_res, captions).last() == close_call(dev, win),
        session(dev, win, x_res, y_res, captions)[1] == create_call(dev, x_res, y_res),
{
    lemma_no_close_before(dev, win, x_res, y_res, captions);
    let calls = session(dev, win, x_res, y_res, captions);
    assert(calls.drop_last() =~= seq![query_call(win_class()), create_call(dev, x_res, y_res)]
        + captions.map_values(|c: Seq<char>| caption_call(dev, win, c)));
}

/// An open window. It is neither `Clone` nor `Copy`: one value owns the host
/// resource, and closing it consumes that value.
pub struct Win {
    dev: Device,
    win: u64,
    x_res: u32,
    y_res: u32,
}

impl Win {
    /// The handle of the window device class.
    pub closed spec fn spec_device(&self) -> Device {
        self.dev
    }

    /// The window's own handle.
    pub closed spec fn spec_handle(&self) -> u64 {
        self.win
    }

    pub closed spec fn spec_x_res(&self) -> u32 {
        self.x_res
    }

    pub closed spec fn spec_y_res(&self) -> u32 {
        self.y_res
    }

    /// Looks up the window device and creates a window of `x_res` by `y_res`
    /// through it; the window's handle is what the host answered.
    pub fn new<Q, S>(bridge: &mut Bridge<Q, S>, x_res: u32, y_res: u32) -> (r: Win)
        where
            Q: Fn(u64, Vec<u8>) -> u64,
            S: Fn(u64, Device, u64, Vec<Word>) -> u64,
        requires
            ready(old(bridge)),
        ensures
            exists|buf: Vec<u8>|
                buf@ == c_bytes(win_class()) && #[trigger] call_ensures(
                    old(bridge).query_fn(),
                    (0u64, buf),
                    r.spec_device(),
                ),
            exists|data: Vec<Word>|
                views(data@) == seq![WordView::Int(x_res as u64), WordView::Int(y_res as u64)]
                    && #[trigger] call_ensures(
                    old(bridge).send_fn(),
                    (0u64, r.spec_device(), CMD_CREATE as u64, data),
                    r.spec_handle(),
                ),
            r.spec_x_res() == x_res,
            r.spec_y_res() == y_res,
            final(bridge).log() == old(bridge).log() + seq![
                query_call(win_class()),
                create_call(r.spec_device(), x_res, y_res),
            ],
            final(bridge).query_fn() == old(bridge).query_fn(),
            final(bridge).send_fn() == old(bridge).send_fn(),
            ready(final(bridge)),
    {
        let class = "aquabsd.alps.win";
        proof {
            reveal_strlit("aquabsd.alps.win");
        }
        let dev = query_device(bridge, class);
        let data = vec![Word::Int(x_res as u64), Word::Int(y_res as u64)];
        let ghost sent = data;
        let win = raw_send_device(bridge, dev, CMD_CREATE, data);
        let r = Win { dev, win, x_res, y_res };
        assert(views(sent@) == seq![WordView::Int(x_res as u64), WordView::Int(y_res as u64)]
            && call_ensures(old(bridge).send_fn(), (0u64, r.spec_device(), CMD_CREATE as u64, sent), r.spec_handle()));
        r
    }

    /// Sets the window's caption to `name`, sent as a null-terminated buffer.
    pub fn caption<Q, S>(&mut self, bridge: &mut Bridge<Q, S>, name: &str)
        where
            Q: Fn(u64, Vec<u8>) -> u64,
            S: Fn(u64, Device, u64, Vec<Word>) -> u64,
        requires
            ready(old(bridge)),
            valid_name(name@),
        ensures
            *final(self) == *old(self),
            final(bridge).log() == old(bridge).log().push(
                caption_call(old(self).spec_device(), old(self).spec_handle(), name@),
            ),
            final(bridge).query_fn() == old(bridge).query_fn(),
            final(bridge).send_fn() == old(bridge).send_fn(),
            ready(final(bridge)),
    {
        let text = c_string(name);
        let data = vec![Word::Int(self.win), Word::Text(text)];
        assert(views(data@) =~= seq![WordView::Int(self.win), WordView::Text(c_bytes(name@))]);
        raw_send_device(bridge, self.dev, CMD_CAPTION, data);
    }

    /// Closes the window. Taking the window by value makes this the last use
    /// of its handle: no window is closed twice.
    pub fn close<Q, S>(self, bridge: &mut Bridge<Q, S>)
        where
            Q: Fn(u64, Vec<u8>) -> u64,
            S: Fn(u64, Device, u64, Vec<Word>) -> u64,
        requires
            ready(old(bridge)),
        ensures
            final(bridge).log() == old(bridge).log().push(close_call(self.spec_device(), self.spec_handle())),
            final(bridge).query_fn() == old(bridge).query_fn(),
            final(bridge).send_fn() == old(bridge).send_fn(),
            ready(final(bridge)),
    {
        let data = vec![Word::Int(self.win)];
        assert(views(data@) =~= seq![WordView::Int(self.win)]);
        raw_send_device(bridge, self.dev, CMD_CLOSE, data);
    }

    /// The handle of the window device class.
    pub fn device(&self) -> (r: Device)
        ensures
            r == self.spec_device(),
    {
        self.dev
    }

    /// The window's own handle, as the host answered on creation.
    pub fn handle(&self) -> (r: u64)
        ensures
            r == self.spec_handle(),
    {
        self.win
    }

    /// The width the window was created with.
    pub fn x_res(&self) -> (r: u32)
        ensures
            r == self.spec_x_res(),
    {
        self.x_res
    }

    /// The height the window was created with.
    pub fn y_res(&self) -> (r: u32)
        ensures
            r == self.spec_y_res(),
    {
        self.y_res
    }
}

} // verus!
