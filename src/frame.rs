//! Line framing of the wire protocol: one JSON object per LF-terminated
//! line. The decoder hands out the bytes of each non-blank line; the JSON
//! text itself is read elsewhere.
use vstd::prelude::*;

verus! {

pub const LF: u8 = 10;

pub const CR: u8 = 13;

/// ASCII whitespace: space, tab, line feed, vertical tab, form feed, carriage
/// return.
pub open spec fn is_blank_byte(b: u8) -> bool {
    b == 32 || (9 <= b && b <= 13)
}

/// The first line feed in `s`, if any.
pub open spec fn first_lf(s: Seq<u8>) -> Option<int> {
    if exists|k: int| 0 <= k < s.len() && s[k] == LF && forall|j: int| 0 <= j < k ==> s[j] != LF {
        Some(choose|k: int| 0 <= k < s.len() && s[k] == LF && forall|j: int| 0 <= j < k ==> s[j] != LF)
    } else {
        None
    }
}

/// `line` without one trailing carriage return.
pub open spec fn without_cr(line: Seq<u8>) -> Seq<u8> {
    if line.len() > 0 && line.last() == CR {
        line.drop_last()
    } else {
        line
    }
}

/// The first complete line of `s` (without its LF and a trailing CR) and the
/// number of bytes it takes, LF included.
pub open spec fn split_line(s: Seq<u8>) -> Option<(Seq<u8>, nat)> {
    match first_lf(s) {
        Some(k) => Some((without_cr(s.subrange(0, k)), (k + 1) as nat)),
        None => None,
    }
}

/// The bytes that carry `payload` on the wire.
pub open spec fn framed(payload: Seq<u8>) -> Seq<u8> {
    payload.push(LF)
}

/// Finds the first complete line in `buf`.
pub fn next_line(buf: &[u8]) -> (r: Option<(Vec<u8>, usize)>)
    ensures
        match r {
            Some((line, used)) => split_line(buf@) == Some((line@, used as nat)) && 1 <= used
                <= buf@.len(),
            None => split_line(buf@) is None,
        },
{
    let n = buf.len();
    let mut i: usize = 0;
    while i < n
        invariant
            n == buf@.len(),
            i <= n,
            forall|j: int| 0 <= j < i ==> buf@[j] != LF,
        decreases n - i,
    {
        if buf[i] == LF {
            proof {
                let k = first_lf(buf@)->0;
                assert(k == i) by {
                    if k > i {
                        assert(buf@[i as int] == LF);
                    }
                }
            }
            let end = if i > 0 && buf[i - 1] == CR {
                i - 1
            } else {
                i
            };
            let mut line: Vec<u8> = Vec::new();
            let mut j: usize = 0;
            while j < end
                invariant
                    end <= i < n,
                    n == buf@.len(),
                    j <= end,
                    line@ == buf@.subrange(0, j as int),
                decreases end - j,
            {
                line.push(buf[j]);
                proof {
                    assert(line@ =~= buf@.subrange(0, j + 1));
                }
                j = j + 1;
            }
            proof {
                assert(line@ =~= without_cr(buf@.subrange(0, i as int)));
            }
            return Some((line, i + 1));
        }
        i = i + 1;
    }
    None
}

/// Whether a line holds only ASCII whitespace.
pub fn is_blank_line(line: &[u8]) -> (r: bool)
    ensures
        r == forall|k: int| 0 <= k < line@.len() ==> is_blank_byte(#[trigger] line@[k]),
{
    let mut i: usize = 0;
    while i < line.len()
        invariant
            i <= line@.len(),
            forall|k: int| 0 <= k < i ==> is_blank_byte(#[trigger] line@[k]),
        decreases line@.len() - i,
    {
        let b = line[i];
        if !(b == 32 || (9 <= b && b <= 13)) {
            return false;
        }
        i = i + 1;
    }
    true
}

/// Frames one payload: the payload followed by a line feed.
pub fn encode_frame(payload: &[u8]) -> (r: Vec<u8>)
    ensures
        r@ == framed(payload@),
{
    let mut out: Vec<u8> = Vec::new();
    let mut i: usize = 0;
    while i < payload.len()
        invariant
            i <= payload@.len(),
            out@ == payload@.subrange(0, i as int),
        decreases payload@.len() - i,
    {
        out.push(payload[i]);
        proof {
            assert(out@ =~= payload@.subrange(0, i + 1));
        }
        i = i + 1;
    }
    out.push(LF);
    proof {
        assert(out@ =~= framed(payload@));
    }
    out
}

/// A payload without line feeds and not ending in a carriage return comes
/// back unchanged from its frame, which is taken whole.
pub proof fn lemma_frame_round_trip(payload: Seq<u8>)
    requires
        forall|k: int| 0 <= k < payload.len() ==> payload[k] != LF,
        payload.len() == 0 || payload.last() != CR,
    ensures
        split_line(framed(payload)) == Some((payload, (payload.len() + 1) as nat)),
{
    let f = framed(payload);
    assert(f[payload.len() as int] == LF);
    let k = first_lf(f)->0;
    assert(k == payload.len()) by {
        if k < payload.len() {
            assert(f[k] == payload[k]);
        }
        if k > payload.len() {
            assert(f[payload.len() as int] == LF);
        }
    }
    assert(f.subrange(0, payload.len() as int) =~= payload);
}

/// Bytes received and not yet handed out as lines.
pub struct FrameDecoder {
    buffer: Vec<u8>,
}

/// The non-blank line that decoding `s` gives next, with what stays in the
/// buffer: blank lines are passed over.
pub open spec fn decode_next(s: Seq<u8>) -> (Option<Seq<u8>>, Seq<u8>)
    decreases s.len(),
{
    match first_lf(s) {
        None => (None, s),
        Some(k) => if 0 <= k < s.len() {
            let line = without_cr(s.subrange(0, k));
            let rest = s.subrange(k + 1, s.len() as int);
            if forall|j: int| 0 <= j < line.len() ==> is_blank_byte(#[trigger] line[j]) {
                decode_next(rest)
            } else {
                (Some(line), rest)
            }
        } else {
            (None, s)
        },
    }
}

impl FrameDecoder {
    pub closed spec fn pending(&self) -> Seq<u8> {
        self.buffer@
    }

    pub fn new() -> (r: Self)
        ensures
            r.pending() == Seq::<u8>::empty(),
    {
        FrameDecoder { buffer: Vec::new() }
    }

    /// Appends received bytes.
    pub fn push_bytes(&mut self, data: &[u8])
        ensures
            final(self).pending() == old(self).pending() + data@,
    {
        let mut i: usize = 0;
        let ghost start = self.buffer@;
        while i < data.len()
            invariant
                i <= data@.len(),
                self.buffer@ == start + data@.subrange(0, i as int),
            decreases data@.len() - i,
        {
            self.buffer.push(data[i]);
            proof {
                assert(self.buffer@ =~= start + data@.subrange(0, i + 1));
            }
            i = i + 1;
        }
        proof {
            assert(data@.subrange(0, data@.len() as int) =~= data@);
        }
    }

    /// The next non-blank line, if a complete one has arrived.
    pub fn next_frame(&mut self) -> (r: Option<Vec<u8>>)
        ensures
            match r {
                Some(line) => decode_next(old(self).pending()) == (
                    Some(line@),
                    final(self).pending(),
                ),
                None => decode_next(old(self).pending()) == (
                    None::<Seq<u8>>,
                    final(self).pending(),
                ),
            },
    {
        loop
            invariant
                decode_next(self.buffer@) == decode_next(old(self).buffer@),
            decreases self.buffer@.len(),
        {
            match next_line(self.buffer.as_slice()) {
                None => {
                    return None;
                },
                Some((line, used)) => {
                    proof {
                        lemma_decode_step(self.buffer@, line@, used as nat);
                    }
                    self.buffer = drop_front(&self.buffer, used);
                    if !is_blank_line(line.as_slice()) {
                        return Some(line);
                    }
                },
            }
        }
    }
}

fn drop_front(v: &Vec<u8>, used: usize) -> (r: Vec<u8>)
    requires
        used <= v@.len(),
    ensures
        r@ == v@.subrange(used as int, v@.len() as int),
{
    let n = v.len();
    let mut rest: Vec<u8> = Vec::new();
    let mut j: usize = used;
    while j < n
        invariant
            used <= j <= n,
            n == v@.len(),
            rest@ == v@.subrange(used as int, j as int),
        decreases n - j,
    {
        rest.push(v[j]);
        proof {
            assert(rest@ =~= v@.subrange(used as int, j + 1));
        }
        j = j + 1;
    }
    rest
}

proof fn lemma_decode_step(s: Seq<u8>, line: Seq<u8>, used: nat)
    requires
        split_line(s) == Some((line, used)),
        1 <= used <= s.len(),
    ensures
        decode_next(s) == if forall|j: int| 0 <= j < line.len() ==> is_blank_byte(#[trigger] line[j]) {
            decode_next(s.subrange(used as int, s.len() as int))
        } else {
            (Some(line), s.subrange(used as int, s.len() as int))
        },
{
    assert(first_lf(s) is Some);
    let k = first_lf(s)->0;
    assert(0 <= k < s.len() && s[k] == LF);
    assert(k + 1 == used);
}

} // verus!
