//! The channel-backed stream adapter: lets an in-memory frame channel stand
//! in for a blocking byte stream, so a synchronous message loop can run
//! against it instead of a pipe or socket.
//!
//! `Writer` is the write sink: each successful `write` turns one byte buffer
//! into one text frame — frames are never split or merged. `Reader` is the
//! line-oriented read source: each `read_line` appends one frame whole and
//! returns its byte length, or zero once the writer is gone, which is the
//! sole end-of-stream signal the owning message loop understands. The other
//! byte-stream operations (raw read, buffer fill, consume) are never invoked
//! by that loop and stay outside this adapter, at the unverified edge, where
//! calling them is a programming error.
//!
//! The channel itself is modeled explicitly: frames the writer has sent wait
//! in its outbox until a `deliver` step — the transport's move — appends
//! them, in send order, to the reader's inbox. A `read_line` with nothing
//! pending and the writer still attached is refused, and the runtime driving
//! the loop retries it after the next delivery.
use vstd::prelude::*;
use vstd::string::StringExecFns;
use vstd::utf8::decode_utf8;
use vstd::utf8::encode_utf8;
use vstd::utf8::valid_utf8;

verus! {

/// Why a `write` was refused: the bytes were not valid text, or the reading
/// half of the channel is gone.
#[derive(Clone, Copy, Debug, PartialEq, Eq, Structural)]
pub enum WriteError {
    Encoding,
    Disconnected,
}

/// The write-sink half: frames sent and not yet moved by the transport,
/// oldest first, and whether the paired reader is still attached.
pub struct Writer {
    pub outbox: Vec<String>,
    pub reader_live: bool,
}

/// The read-source half: frames delivered and not yet read, oldest first,
/// and whether the paired writer is still attached.
pub struct Reader {
    pub inbox: Vec<String>,
    pub writer_live: bool,
}

impl Writer {
    /// The frames sent and still in flight, as their characters.
    pub open spec fn frames(&self) -> Seq<Seq<char>> {
        self.outbox.deep_view()
    }
}

impl Reader {
    /// The frames pending for the reader, as their characters.
    pub open spec fn frames(&self) -> Seq<Seq<char>> {
        self.inbox.deep_view()
    }
}

/// A fresh channel pair with both halves attached and nothing in flight.
pub fn channel() -> (pair: (Writer, Reader))
    ensures
        pair.0.frames() == Seq::<Seq<char>>::empty(),
        pair.0.reader_live,
        pair.1.frames() == Seq::<Seq<char>>::empty(),
        pair.1.writer_live,
{
    let w = Writer { outbox: Vec::new(), reader_live: true };
    let r = Reader { inbox: Vec::new(), writer_live: true };
    proof {
        assert(w.frames() =~= Seq::<Seq<char>>::empty());
        assert(r.frames() =~= Seq::<Seq<char>>::empty());
    }
    (w, r)
}

/// The computing half of a `write`: validates the bytes as text and builds
/// the single frame they become.
pub fn encode_frame(buf: &[u8]) -> (r: Result<String, WriteError>)
    ensures
        r is Ok <==> valid_utf8(buf@),
        r matches Ok(s) ==> s@ == decode_utf8(buf@),
        r is Err ==> r == Err::<String, WriteError>(WriteError::Encoding),
{
    match crate::text::decode_text(buf) {
        Some(s) => Ok(s),
        None => Err(WriteError::Encoding),
    }
}

/// The computing half of a blocking `read_line` over a real channel: the
/// receive outcome comes in as `frame` — `None` when the channel reported
/// closure — and one whole frame is appended, its byte length returned;
/// zero signals end-of-stream.
pub fn append_frame(buf: &mut String, frame: Option<String>) -> (n: usize)
    ensures
        frame is None ==> n == 0 && final(buf)@ == old(buf)@,
        frame matches Some(f) ==> final(buf)@ == old(buf)@ + f@
            && n == encode_utf8(f@).len() as usize,
{
    match frame {
        None => 0,
        Some(f) => {
            let n = f.as_str().len();
            buf.append(f.as_str());
            n
        },
    }
}

impl Writer {
    /// Sends `buf` as one frame and returns its byte count. Bytes that are
    /// not valid text are refused with an encoding error; a channel whose
    /// reader is gone refuses with a transport error; either way nothing
    /// changes.
    pub fn write(&mut self, buf: &[u8]) -> (r: Result<usize, WriteError>)
        ensures
            final(self).reader_live == old(self).reader_live,
            !valid_utf8(buf@) ==> r == Err::<usize, WriteError>(WriteError::Encoding)
                && *final(self) == *old(self),
            valid_utf8(buf@) && !old(self).reader_live ==> r == Err::<usize, WriteError>(
                WriteError::Disconnected,
            ) && *final(self) == *old(self),
            valid_utf8(buf@) && old(self).reader_live ==> r == Ok::<usize, WriteError>(
                buf@.len() as usize,
            ) && final(self).frames() == old(self).frames().push(decode_utf8(buf@)),
    {
        let frame = match encode_frame(buf) {
            Ok(f) => f,
            Err(e) => {
                return Err(e);
            },
        };
        if !self.reader_live {
            return Err(WriteError::Disconnected);
        }
        let ghost frames0 = self.frames();
        let ghost fr = frame@;
        self.outbox.push(frame);
        proof {
            assert(self.frames() =~= frames0.push(fr));
        }
        Ok(buf.len())
    }

    /// Sends are immediately visible to the transport, so there is nothing
    /// to flush.
    pub fn flush(&self) -> (r: Result<(), WriteError>)
        ensures
            r is Ok,
    {
        Ok(())
    }
}

impl Reader {
    /// Appends the next pending frame whole to `buf` and returns its byte
    /// length; returns zero — end-of-stream, not an error — once nothing is
    /// pending and the writer is gone. Refused (for the runtime to retry
    /// after the next delivery) while nothing is pending but the writer is
    /// still attached.
    pub fn read_line(&mut self, buf: &mut String) -> (r: Option<usize>)
        ensures
            final(self).writer_live == old(self).writer_live,
            old(self).frames().len() == 0 && old(self).writer_live ==> r is None
                && *final(self) == *old(self) && final(buf)@ == old(buf)@,
            old(self).frames().len() == 0 && !old(self).writer_live ==> r == Some(0usize)
                && *final(self) == *old(self) && final(buf)@ == old(buf)@,
            old(self).frames().len() > 0 ==> r == Some(
                encode_utf8(old(self).frames()[0]).len() as usize,
            ) && final(self).frames() == old(self).frames().drop_first()
                && final(buf)@ == old(buf)@ + old(self).frames()[0],
    {
        if self.inbox.is_empty() {
            if self.writer_live {
                None
            } else {
                Some(append_frame(buf, None))
            }
        } else {
            let ghost frames0 = self.frames();
            let f = self.inbox.remove(0);
            proof {
                assert(self.frames() =~= frames0.drop_first());
            }
            Some(append_frame(buf, Some(f)))
        }
    }
}

/// The transport step: moves every frame the writer has sent, in send
/// order, to the reader's pending queue.
pub fn deliver(w: &mut Writer, r: &mut Reader)
    ensures
        final(w).reader_live == old(w).reader_live,
        final(w).frames() == Seq::<Seq<char>>::empty(),
        final(r).writer_live == old(r).writer_live,
        final(r).frames() == old(r).frames() + old(w).frames(),
{
    let ghost rf = r.frames();
    let ghost wf = w.frames();
    r.inbox.append(&mut w.outbox);
    proof {
        assert(r.frames() =~= rf + wf);
        assert(w.frames() =~= Seq::<Seq<char>>::empty());
    }
}

/// Dropping the write half: frames still in flight are delivered, and the
/// reader reports end-of-stream once it has drained them.
pub fn drop_writer(w: Writer, r: &mut Reader)
    ensures
        !final(r).writer_live,
        final(r).frames() == old(r).frames() + w.frames(),
{
    let mut w = w;
    deliver(&mut w, r);
    r.writer_live = false;
}

/// Dropping the read half: the writer's next `write` reports a transport
/// error.
pub fn drop_reader(r: Reader, w: &mut Writer)
    ensures
        !final(w).reader_live,
        final(w).frames() == old(w).frames(),
{
    let _ = r;
    w.reader_live = false;
}

/// The frames in flight after a fresh writer sends each buffer of `bufs`
/// in order to an attached reader.
pub open spec fn write_run(bufs: Seq<Seq<u8>>) -> Seq<Seq<char>>
    decreases bufs.len(),
{
    if bufs.len() == 0 {
        Seq::empty()
    } else {
        write_run(bufs.drop_last()).push(decode_utf8(bufs.last()))
    }
}

/// Round trip: writing a sequence of (valid-text) byte buffers puts exactly
/// one frame per buffer in flight, in send order, each frame the text of
/// its buffer — so after delivery the reader observes exactly those frames,
/// in order, one `read_line` each.
pub proof fn lemma_round_trip(bufs: Seq<Seq<u8>>)
    requires
        forall|i: int| 0 <= i < bufs.len() ==> valid_utf8(#[trigger] bufs[i]),
    ensures
        write_run(bufs) == bufs.map_values(|b: Seq<u8>| decode_utf8(b)),
    decreases bufs.len(),
{
    if bufs.len() == 0 {
        assert(write_run(bufs) =~= bufs.map_values(|b: Seq<u8>| decode_utf8(b)));
    } else {
        lemma_round_trip(bufs.drop_last());
        assert(write_run(bufs) =~= bufs.map_values(|b: Seq<u8>| decode_utf8(b)));
    }
}

} // verus!
