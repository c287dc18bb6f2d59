//! Delimiter-based packet assembly: STX opens a frame, ETX closes it.
use vstd::prelude::*;
use vstd::utf8::{decode_utf8, valid_utf8};

verus! {

/// Start-of-text marker; always (re)starts a frame.
pub const STX: u8 = 2;

/// End-of-text marker; closes the frame being collected.
pub const ETX: u8 = 3;

/// Largest number of payload bytes held while a frame is open.
pub const MAX_BUFFER_SIZE: usize = 4096;

/// Milliseconds an open frame may wait for its ETX before it is dropped.
pub const COLLECTION_TIMEOUT_MS: u64 = 5000;

/// What `String::from_utf8_lossy` makes of a byte sequence.
pub uninterp spec fn lossy_utf8(bytes: Seq<u8>) -> Seq<char>;

/// Relies on `String::from_utf8_lossy`: the text depends on the bytes alone,
/// and valid UTF-8 is decoded unchanged.
#[verifier::external_body]
fn decode_lossy(bytes: &Vec<u8>) -> (r: String)
    ensures
        r@ == lossy_utf8(bytes@),
        valid_utf8(bytes@) ==> r@ == decode_utf8(bytes@),
{
    String::from_utf8_lossy(bytes.as_slice()).into_owned()
}

/// Abstract state of a framing buffer.
pub struct FrameView {
    pub collecting: bool,
    pub bytes: Seq<u8>,
    pub started_at_ms: u64,
}

/// The buffer is empty when no frame is open, and never exceeds the limit.
pub open spec fn frame_wf(s: FrameView) -> bool {
    &&& s.bytes.len() <= MAX_BUFFER_SIZE
    &&& !s.collecting ==> s.bytes.len() == 0
}

/// The same state with no frame open.
pub open spec fn frame_idle(s: FrameView) -> FrameView {
    FrameView { collecting: false, bytes: Seq::empty(), started_at_ms: s.started_at_ms }
}

/// Effect of one byte: the next state and the raw payload of a completed frame.
pub open spec fn feed_step(s: FrameView, b: u8, now_ms: u64) -> (FrameView, Option<Seq<u8>>) {
    if b == STX {
        (FrameView { collecting: true, bytes: Seq::empty(), started_at_ms: now_ms }, None)
    } else if !s.collecting {
        (s, None)
    } else if b == ETX {
        (frame_idle(s), if s.bytes.len() > 0 { Some(s.bytes) } else { None })
    } else if s.bytes.len() < MAX_BUFFER_SIZE {
        (FrameView { bytes: s.bytes.push(b), ..s }, None)
    } else {
        (frame_idle(s), None)
    }
}

/// Bytes fed one after another at one instant: final state and completed payloads in order.
pub open spec fn feed_all(s: FrameView, bs: Seq<u8>, now_ms: u64) -> (FrameView, Seq<Seq<u8>>)
    decreases bs.len(),
{
    if bs.len() == 0 {
        (s, Seq::empty())
    } else {
        let (s1, m) = feed_step(s, bs[0], now_ms);
        let (s2, rest) = feed_all(s1, bs.drop_first(), now_ms);
        (
            s2,
            match m {
                Some(p) => seq![p] + rest,
                None => rest,
            },
        )
    }
}

/// An open frame whose ETX is overdue at `now_ms`.
pub open spec fn timed_out(s: FrameView, now_ms: u64) -> bool {
    &&& s.collecting
    &&& now_ms > s.started_at_ms
    &&& now_ms - s.started_at_ms > COLLECTION_TIMEOUT_MS
}

/// Effect of a timeout check at `now_ms`.
pub open spec fn check_timeout_step(s: FrameView, now_ms: u64) -> FrameView {
    if timed_out(s, now_ms) {
        frame_idle(s)
    } else {
        s
    }
}

/// Turns a byte stream into complete messages.
pub struct FramingBuffer {
    collecting: bool,
    buffer: Vec<u8>,
    started_at_ms: u64,
}

impl View for FramingBuffer {
    type V = FrameView;

    closed spec fn view(&self) -> FrameView {
        FrameView {
            collecting: self.collecting,
            bytes: self.buffer@,
            started_at_ms: self.started_at_ms,
        }
    }
}

impl FramingBuffer {
    pub open spec fn wf(&self) -> bool {
        frame_wf(self@)
    }

    /// An empty buffer with no frame open.
    pub fn new() -> (r: FramingBuffer)
        ensures
            r.wf(),
            !r@.collecting,
            r@.bytes.len() == 0,
    {
        FramingBuffer { collecting: false, buffer: Vec::new(), started_at_ms: 0 }
    }

    pub fn is_collecting(&self) -> (r: bool)
        ensures
            r == self@.collecting,
    {
        self.collecting
    }

    /// Number of payload bytes held.
    pub fn buffered_len(&self) -> (r: usize)
        ensures
            r == self@.bytes.len(),
    {
        self.buffer.len()
    }

    /// Drops an open frame whose ETX has not come within the timeout.
    /// Returns whether a frame was dropped.
    pub fn check_timeout(&mut self, now_ms: u64) -> (r: bool)
        requires
            old(self).wf(),
        ensures
            final(self).wf(),
            final(self)@ == check_timeout_step(old(self)@, now_ms),
            r == timed_out(old(self)@, now_ms),
    {
        if self.collecting && now_ms > self.started_at_ms && now_ms - self.started_at_ms
            > COLLECTION_TIMEOUT_MS {
            self.buffer.clear();
            self.collecting = false;
            true
        } else {
            false
        }
    }

    /// Feeds one byte received at `now_ms`; returns the decoded text of a completed frame.
    pub fn feed(&mut self, byte: u8, now_ms: u64) -> (r: Option<String>)
        requires
            old(self).wf(),
        ensures
            final(self).wf(),
            final(self)@ == feed_step(old(self)@, byte, now_ms).0,
            match feed_step(old(self)@, byte, now_ms).1 {
                Some(p) => r is Some && r->0@ == lossy_utf8(p),
                None => r is None,
            },
    {
        if byte == STX {
            self.buffer.clear();
            self.collecting = true;
            self.started_at_ms = now_ms;
            None
        } else if !self.collecting {
            None
        } else if byte == ETX {
            let out = if self.buffer.len() > 0 {
                Some(decode_lossy(&self.buffer))
            } else {
                None
            };
            self.buffer.clear();
            self.collecting = false;
            out
        } else if self.buffer.len() < MAX_BUFFER_SIZE {
            self.buffer.push(byte);
            None
        } else {
            self.buffer.clear();
            self.collecting = false;
            None
        }
    }
}

/// No byte of `p` is a frame marker.
pub open spec fn no_markers(p: Seq<u8>) -> bool {
    forall|i: int| 0 <= i < p.len() ==> p[i] != STX && p[i] != ETX
}

/// Feeding `a` then `b` is feeding `a + b`.
pub proof fn lemma_feed_all_append(s: FrameView, a: Seq<u8>, b: Seq<u8>, now_ms: u64)
    ensures
        feed_all(s, a + b, now_ms) == ({
            let (s1, m1) = feed_all(s, a, now_ms);
            let (s2, m2) = feed_all(s1, b, now_ms);
            (s2, m1 + m2)
        }),
    decreases a.len(),
{
    if a.len() == 0 {
        assert(a + b =~= b);
        let (s2, m2) = feed_all(s, b, now_ms);
        assert(Seq::<Seq<u8>>::empty() + m2 =~= m2);
    } else {
        let (s1, m) = feed_step(s, a[0], now_ms);
        assert((a + b).drop_first() =~= a.drop_first() + b);
        assert((a + b)[0] == a[0]);
        lemma_feed_all_append(s1, a.drop_first(), b, now_ms);
        let (t1, n1) = feed_all(s1, a.drop_first(), now_ms);
        let (t2, n2) = feed_all(t1, b, now_ms);
        match m {
            Some(x) => {
                assert(seq![x] + (n1 + n2) =~= (seq![x] + n1) + n2);
            },
            None => {},
        }
    }
}

/// Payload bytes fed into an open frame are appended and complete nothing.
pub proof fn lemma_collect_payload(s: FrameView, p: Seq<u8>, now_ms: u64)
    requires
        s.collecting,
        s.bytes.len() + p.len() <= MAX_BUFFER_SIZE,
        no_markers(p),
    ensures
        feed_all(s, p, now_ms) == (FrameView { bytes: s.bytes + p, ..s }, Seq::<Seq<u8>>::empty()),
    decreases p.len(),
{
    if p.len() == 0 {
        assert(s.bytes + p =~= s.bytes);
    } else {
        let s1 = FrameView { bytes: s.bytes.push(p[0]), ..s };
        assert(feed_step(s, p[0], now_ms) == (s1, None::<Seq<u8>>));
        assert forall|i: int| 0 <= i < p.drop_first().len() implies p.drop_first()[i] != STX
            && p.drop_first()[i] != ETX by {
            assert(p.drop_first()[i] == p[i + 1]);
        }
        lemma_collect_payload(s1, p.drop_first(), now_ms);
        assert(s1.bytes + p.drop_first() =~= s.bytes + p);
    }
}

/// Whatever bytes arrive, a well-formed buffer stays well formed: it never holds
/// more than `MAX_BUFFER_SIZE` bytes.
pub proof fn lemma_buffer_bounded(s: FrameView, bs: Seq<u8>, now_ms: u64)
    requires
        frame_wf(s),
    ensures
        frame_wf(feed_all(s, bs, now_ms).0),
        feed_all(s, bs, now_ms).0.bytes.len() <= MAX_BUFFER_SIZE,
    decreases bs.len(),
{
    if bs.len() > 0 {
        let (s1, m) = feed_step(s, bs[0], now_ms);
        lemma_buffer_bounded(s1, bs.drop_first(), now_ms);
    }
}

/// A frame `STX p ETX` with a non-empty payload free of markers, no longer than
/// the buffer, completes exactly one message, `p`, whatever came before; its
/// text is the lossy UTF-8 decoding of `p`, and the buffer is left idle.
pub proof fn lemma_well_formed_frame(s: FrameView, p: Seq<u8>, now_ms: u64)
    requires
        0 < p.len() <= MAX_BUFFER_SIZE,
        no_markers(p),
    ensures
        feed_all(s, seq![STX] + p + seq![ETX], now_ms).1 == seq![p],
        feed_all(s, seq![STX] + p + seq![ETX], now_ms).1.map_values(|m: Seq<u8>| lossy_utf8(m))
            == seq![lossy_utf8(p)],
        !feed_all(s, seq![STX] + p + seq![ETX], now_ms).0.collecting,
        feed_all(s, seq![STX] + p + seq![ETX], now_ms).0.bytes.len() == 0,
{
    let open = FrameView { collecting: true, bytes: Seq::empty(), started_at_ms: now_ms };
    lemma_feed_all_append(s, seq![STX] + p, seq![ETX], now_ms);
    lemma_feed_all_append(s, seq![STX], p, now_ms);
    assert(seq![STX].drop_first() =~= Seq::<u8>::empty());
    assert(feed_all(open, seq![STX].drop_first(), now_ms) == (open, Seq::<Seq<u8>>::empty()));
    assert(feed_all(s, seq![STX], now_ms) == (open, Seq::<Seq<u8>>::empty()));
    lemma_collect_payload(open, p, now_ms);
    let full = FrameView { bytes: open.bytes + p, ..open };
    assert(open.bytes + p =~= p);
    assert(seq![ETX].drop_first() =~= Seq::<u8>::empty());
    assert(feed_all(frame_idle(full), seq![ETX].drop_first(), now_ms) == (
        frame_idle(full),
        Seq::<Seq<u8>>::empty(),
    ));
    assert(seq![p] + Seq::<Seq<u8>>::empty() =~= seq![p]);
    assert(feed_all(full, seq![ETX], now_ms) == (frame_idle(full), seq![p]));
    assert(Seq::<Seq<u8>>::empty() + Seq::<Seq<u8>>::empty() + seq![p] =~= seq![p]);
    assert(seq![p].map_values(|m: Seq<u8>| lossy_utf8(m)) =~= seq![lossy_utf8(p)]);
}

/// An ETX while no frame is open changes nothing and completes nothing.
pub proof fn lemma_stray_etx_ignored(s: FrameView, now_ms: u64)
    requires
        !s.collecting,
    ensures
        feed_step(s, ETX, now_ms) == (s, None::<Seq<u8>>),
{
}

/// A frame left open past the timeout is dropped by the next check, and a
/// well-formed frame after that still completes normally.
pub proof fn lemma_timeout_recovery(
    s: FrameView,
    check_ms: u64,
    p: Seq<u8>,
    now_ms: u64,
)
    requires
        frame_wf(s),
        timed_out(s, check_ms),
        0 < p.len() <= MAX_BUFFER_SIZE,
        no_markers(p),
    ensures
        !check_timeout_step(s, check_ms).collecting,
        check_timeout_step(s, check_ms).bytes.len() == 0,
        feed_all(check_timeout_step(s, check_ms), seq![STX] + p + seq![ETX], now_ms).1 == seq![p],
{
    lemma_well_formed_frame(check_timeout_step(s, check_ms), p, now_ms);
}

} // verus!
