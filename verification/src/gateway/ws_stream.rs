//! The relay reads the client's WebSocket as a byte stream: binary
//! messages are handed out in order, as much as each read has room for, and
//! what does not fit waits for the next read. Other messages are skipped.
//!
//! The caller polls the WebSocket; it asks [`WsReadBuffer::has_pending`]
//! first, and hands each message to [`ws_read_step`].

use vstd::prelude::*;

use crate::gateway::handshake::WsMessageKind;

verus! {

/// The unread rest of the last binary message.
pub struct WsReadBuffer {
    read_buf: Vec<u8>,
    read_pos: usize,
}

impl View for WsReadBuffer {
    type V = Seq<u8>;

    closed spec fn view(&self) -> Seq<u8> {
        self.read_buf@.subrange(self.read_pos as int, self.read_buf@.len() as int)
    }
}

/// What a read does with the next WebSocket message.
#[derive(Debug, Clone, Copy, PartialEq, Eq, Structural)]
pub enum WsReadStep {
    /// Hand out the binary message's bytes.
    Deliver,
    /// Not a binary message: poll the next one.
    Skip,
    /// The stream ended: the read returns no bytes.
    Eof,
    /// Receiving failed: the read fails.
    Fail,
}

/// Decides what a read does with the next message (`None` when the stream
/// ended, `Some(Err(()))` when receiving failed).
pub fn ws_read_step(message: Option<Result<WsMessageKind, ()>>) -> (r: WsReadStep)
    ensures
        r == match message {
            None => WsReadStep::Eof,
            Some(Err(_)) => WsReadStep::Fail,
            Some(Ok(WsMessageKind::Binary)) => WsReadStep::Deliver,
            Some(Ok(_)) => WsReadStep::Skip,
        },
{
    match message {
        None => WsReadStep::Eof,
        Some(Err(_)) => WsReadStep::Fail,
        Some(Ok(WsMessageKind::Binary)) => WsReadStep::Deliver,
        Some(Ok(_)) => WsReadStep::Skip,
    }
}

/// The smaller of two lengths.
pub open spec fn min_len(a: int, b: int) -> int {
    if a <= b {
        a
    } else {
        b
    }
}

impl WsReadBuffer {
    #[verifier::type_invariant]
    spec fn position_in_buffer(self) -> bool {
        self.read_pos <= self.read_buf@.len()
    }

    /// Nothing unread.
    pub fn new() -> (r: WsReadBuffer)
        ensures
            r@ == Seq::<u8>::empty(),
    {
        WsReadBuffer { read_buf: Vec::new(), read_pos: 0 }
    }

    /// Whether bytes of the last message are still unread.
    pub fn has_pending(&self) -> (r: bool)
        ensures
            r == (self@.len() > 0),
    {
        proof {
            use_type_invariant(self);
        }
        self.read_pos < self.read_buf.len()
    }

    /// Appends as many unread bytes as `space` allows to `out`; returns how
    /// many. The bytes handed out and those still unread make up what was
    /// unread before.
    pub fn read_pending(&mut self, out: &mut Vec<u8>, space: usize) -> (n: usize)
        ensures
            n == min_len(old(self)@.len() as int, space as int),
            final(out)@ == old(out)@ + old(self)@.take(n as int),
            final(self)@ == old(self)@.skip(n as int),
            old(self)@ == old(self)@.take(n as int) + final(self)@,
    {
        proof {
            use_type_invariant(&*self);
        }
        let pos = self.read_pos;
        let len = self.read_buf.len();
        let available = len - pos;
        let n = if available <= space {
            available
        } else {
            space
        };
        let ghost before = out@;
        let mut i: usize = 0;
        while i < n
            invariant
                i <= n,
                pos == self.read_pos,
                len == self.read_buf@.len(),
                pos + n <= len,
                out@ == before + self.read_buf@.subrange(pos as int, pos + i),
            decreases n - i,
        {
            out.push(self.read_buf[pos + i]);
            assert(self.read_buf@.subrange(pos as int, pos + i + 1) =~= self.read_buf@.subrange(
                pos as int,
                pos + i,
            ).push(self.read_buf@[pos + i]));
            i = i + 1;
        }
        let ghost old_view = self@;
        self.read_pos = self.read_pos + n;
        assert(old_view.take(n as int) =~= self.read_buf@.subrange(self.read_pos - n, self.read_pos as int));
        assert(self@ =~= old_view.skip(n as int));
        assert(old_view =~= old_view.take(n as int) + self@);
        n
    }

    /// Hands out a newly received binary message: as many of its bytes as
    /// `space` allows are appended to `out`, and the rest is kept unread.
    /// The bytes handed out and those kept make up the message.
    pub fn deliver_binary(&mut self, data: Vec<u8>, out: &mut Vec<u8>, space: usize) -> (n: usize)
        ensures
            n == min_len(data@.len() as int, space as int),
            final(out)@ == old(out)@ + data@.take(n as int),
            final(self)@ == data@.skip(n as int),
            data@ == data@.take(n as int) + final(self)@,
    {
        let n = if data.len() <= space {
            data.len()
        } else {
            space
        };
        let ghost before = out@;
        let mut i: usize = 0;
        while i < n
            invariant
                i <= n,
                n <= data@.len(),
                out@ == before + data@.take(i as int),
            decreases n - i,
        {
            out.push(data[i]);
            assert(data@.take(i + 1) =~= data@.take(i as int).push(data@[i as int]));
            i = i + 1;
        }
        if n < data.len() {
            self.read_pos = 0;
            self.read_buf = data;
            self.read_pos = n;
        } else {
            self.read_pos = 0;
            self.read_buf = Vec::new();
        }
        assert(self@ =~= data@.skip(n as int));
        assert(data@ =~= data@.take(n as int) + self@);
        n
    }
}

} // verus!
