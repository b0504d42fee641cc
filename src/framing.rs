//! Framing of the game protocol: each message on the socket ends with a single
//! NUL byte, with no length prefix.
use vstd::prelude::*;

verus! {

/// The byte that ends each message.
pub const TERMINATOR: u8 = 0;

/// `s` holds no terminator.
pub open spec fn unterminated(s: Seq<u8>) -> bool {
    forall|j: int| 0 <= j < s.len() ==> #[trigger] s[j] != TERMINATOR
}

/// `frame` is the part of `s` before its first terminator and `rest` the part
/// after it; or, where `s` holds no terminator, `frame` is `None` and `rest`
/// is `s`.
pub open spec fn splits_into(s: Seq<u8>, frame: Option<Seq<u8>>, rest: Seq<u8>) -> bool {
    match frame {
        Some(f) => {
            &&& f.len() < s.len()
            &&& f == s.take(f.len() as int)
            &&& unterminated(f)
            &&& s[f.len() as int] == TERMINATOR
            &&& rest == s.skip(f.len() as int + 1)
        },
        None => unterminated(s) && rest == s,
    }
}

/// The bytes that carry `payload` on the wire.
pub fn frame_message(payload: Vec<u8>) -> (r: Vec<u8>)
    ensures
        r@ == payload@.push(TERMINATOR),
{
    let mut r = payload;
    r.push(TERMINATOR);
    r
}

/// Bytes read from the socket that do not yet make up a whole message.
pub struct FrameBuffer {
    pending: Vec<u8>,
}

impl View for FrameBuffer {
    type V = Seq<u8>;

    closed spec fn view(&self) -> Seq<u8> {
        self.pending@
    }
}

impl FrameBuffer {
    pub fn new() -> (r: FrameBuffer)
        ensures
            r@ == Seq::<u8>::empty(),
    {
        FrameBuffer { pending: Vec::new() }
    }

    /// Appends bytes just read.
    pub fn push_bytes(&mut self, bytes: &[u8])
        ensures
            final(self)@ == old(self)@ + bytes@,
    {
        let mut i: usize = 0;
        while i < bytes.len()
            invariant
                i <= bytes@.len(),
                self@ == old(self)@ + bytes@.take(i as int),
            decreases bytes@.len() - i,
        {
            self.pending.push(bytes[i]);
            i = i + 1;
            assert(bytes@.take(i as int) == bytes@.take(i - 1).push(bytes@[i - 1]));
        }
        assert(bytes@.take(i as int) == bytes@);
    }

    /// Removes the first whole message, without its terminator, and returns
    /// it; a partial message stays buffered.
    pub fn next_frame(&mut self) -> (r: Option<Vec<u8>>)
        ensures
            splits_into(
                old(self)@,
                match r {
                    Some(f) => Some(f@),
                    None => None::<Seq<u8>>,
                },
                final(self)@,
            ),
    {
        let n = self.pending.len();
        let mut end: usize = 0;
        while end < n && self.pending[end] != TERMINATOR
            invariant
                n == self@.len(),
                end <= n,
                unterminated(self@.take(end as int)),
            decreases n - end,
        {
            end = end + 1;
            assert(self@.take(end as int) == self@.take(end - 1).push(self@[end - 1]));
        }
        if end == n {
            assert(self@.take(end as int) == self@);
            return None;
        }
        let mut frame: Vec<u8> = Vec::new();
        let mut rest: Vec<u8> = Vec::new();
        let mut i: usize = 0;
        while i < n
            invariant
                n == self@.len(),
                end < n,
                i <= n,
                frame@ == self@.take(if i <= end { i as int } else { end as int }),
                rest@ == (if i <= end + 1 {
                    Seq::<u8>::empty()
                } else {
                    self@.subrange(end + 1, i as int)
                }),
            decreases n - i,
        {
            let b = self.pending[i];
            if i < end {
                frame.push(b);
                assert(self@.take(i + 1) == self@.take(i as int).push(b));
            } else if i > end {
                rest.push(b);
                assert(self@.subrange(end + 1, i + 1) == (if i <= end + 1 {
                    Seq::<u8>::empty()
                } else {
                    self@.subrange(end + 1, i as int)
                }).push(b));
            }
            i = i + 1;
        }
        assert(rest@ == self@.skip(end + 1));
        self.pending = rest;
        Some(frame)
    }

    /// Number of bytes buffered.
    pub fn len(&self) -> (r: usize)
        ensures
            r == self@.len(),
    {
        self.pending.len()
    }
}

/// Reading back what was framed: with no terminator among the bytes already
/// buffered nor in the payload, the buffered bytes followed by the framed
/// payload and anything after it split into the buffered bytes joined with
/// the payload, and what comes after.
pub proof fn lemma_frame_round_trip(buffered: Seq<u8>, payload: Seq<u8>, after: Seq<u8>, frame: Option<Seq<u8>>, rest: Seq<u8>)
    requires
        unterminated(buffered),
        unterminated(payload),
        splits_into(buffered + payload.push(TERMINATOR) + after, frame, rest),
    ensures
        frame == Some(buffered + payload),
        rest == after,
{
    let s = buffered + payload.push(TERMINATOR) + after;
    let k = (buffered.len() + payload.len()) as int;
    assert(s[k] == TERMINATOR);
    assert forall|j: int| 0 <= j < k implies s[j] != TERMINATOR by {
        if j < buffered.len() {
            assert(s[j] == buffered[j]);
        } else {
            assert(s[j] == payload[j - buffered.len()]);
        }
    }
    match frame {
        Some(f) => {
            if f.len() < k {
                assert(s[f.len() as int] != TERMINATOR);
            } else if f.len() > k {
                assert(f[k] == s[k]);
            }
            assert(f =~= buffered + payload);
            assert(rest =~= after);
        },
        None => {
            assert(s[k] == TERMINATOR);
        },
    }
}

} // verus!
