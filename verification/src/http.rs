//! Request classification, the wire replies, and the per-connection buffer.
//!
//! The listener reads raw bytes from a connection into an [`InboundBuffer`],
//! classifies the buffered prefix by its leading method token, and answers
//! with a minimal fixed reply: the bare success status line for a write
//! request, or the status line followed by the static page for a read
//! request.

use vstd::prelude::*;

verus! {

/// Whether `s` begins with `p`.
pub open spec fn seq_starts_with(s: Seq<u8>, p: Seq<u8>) -> bool {
    p.len() <= s.len() && (forall|i: int| 0 <= i < p.len() ==> s[i] == p[i])
}

/// The method token of a write (command-submission) request.
pub open spec fn write_token() -> Seq<u8> {
    seq![80u8, 79u8, 83u8, 84u8]
}

/// The method token of a read (page-fetch) request.
pub open spec fn read_token() -> Seq<u8> {
    seq![71u8, 69u8, 84u8]
}

/// The fixed success status line, `HTTP/1.0 200 OK` plus the blank line that
/// ends the header section. Every reply begins with exactly these bytes.
pub open spec fn ok_status_line() -> Seq<u8> {
    seq![
        72u8,
        84u8,
        84u8,
        80u8,
        47u8,
        49u8,
        46u8,
        48u8,
        32u8,
        50u8,
        48u8,
        48u8,
        32u8,
        79u8,
        75u8,
        13u8,
        10u8,
        13u8,
        10u8,
    ]
}

/// How a buffered request prefix is classified.
#[derive(Clone, Copy, Debug, PartialEq, Eq, Structural)]
pub enum RequestKind {
    /// Begins with the write token: a command submission.
    Write,
    /// Begins with the read token: a page fetch.
    Read,
    /// Begins with neither token: no reply is owed.
    Other,
}

/// Which reply bytes a request is owed.
#[derive(Clone, Copy, Debug, PartialEq, Eq, Structural)]
pub enum ReplyKind {
    /// The bare success status line: the acknowledgment of a write request,
    /// sent before its body is even looked at.
    StatusOnly,
    /// The status line followed by the static page: the answer to a read
    /// request.
    StatusAndPage,
    /// Nothing: the buffered prefix matched neither token.
    NoReply,
}

/// Whether `s` begins with `p`, checked byte by byte.
pub fn bytes_start_with(s: &[u8], p: &[u8]) -> (b: bool)
    ensures
        b == seq_starts_with(s@, p@),
{
    if p.len() > s.len() {
        return false;
    }
    let mut i: usize = 0;
    while i < p.len()
        invariant
            0 <= i <= p@.len() <= s@.len(),
            forall|k: int| 0 <= k < i ==> s@[k] == p@[k],
        decreases p@.len() - i,
    {
        if s[i] != p[i] {
            return false;
        }
        i = i + 1;
    }
    true
}

/// The write token as bytes.
pub fn write_token_bytes() -> (v: Vec<u8>)
    ensures
        v@ == write_token(),
{
    let mut v: Vec<u8> = Vec::new();
    v.push(80u8);
    v.push(79u8);
    v.push(83u8);
    v.push(84u8);
    proof {
        assert(v@ =~= write_token());
    }
    v
}

/// The read token as bytes.
pub fn read_token_bytes() -> (v: Vec<u8>)
    ensures
        v@ == read_token(),
{
    let mut v: Vec<u8> = Vec::new();
    v.push(71u8);
    v.push(69u8);
    v.push(84u8);
    proof {
        assert(v@ =~= read_token());
    }
    v
}

/// Classifies a buffered request prefix by its leading method token. The two
/// tokens differ in their first byte, so at most one can match.
pub fn classify(buf: &[u8]) -> (k: RequestKind)
    ensures
        k == RequestKind::Write <==> seq_starts_with(buf@, write_token()),
        k == RequestKind::Read <==> !seq_starts_with(buf@, write_token()) && seq_starts_with(
            buf@,
            read_token(),
        ),
        k == RequestKind::Other <==> !seq_starts_with(buf@, write_token()) && !seq_starts_with(
            buf@,
            read_token(),
        ),
{
    let post = write_token_bytes();
    if bytes_start_with(buf, post.as_slice()) {
        RequestKind::Write
    } else {
        let get = read_token_bytes();
        if bytes_start_with(buf, get.as_slice()) {
            RequestKind::Read
        } else {
            RequestKind::Other
        }
    }
}

/// The bare success reply sent for a write request, before its body is even
/// looked at.
pub fn ok_response() -> (v: Vec<u8>)
    ensures
        v@ == ok_status_line(),
{
    let mut v: Vec<u8> = Vec::new();
    v.push(72u8);
    v.push(84u8);
    v.push(84u8);
    v.push(80u8);
    v.push(47u8);
    v.push(49u8);
    v.push(46u8);
    v.push(48u8);
    v.push(32u8);
    v.push(50u8);
    v.push(48u8);
    v.push(48u8);
    v.push(32u8);
    v.push(79u8);
    v.push(75u8);
    v.push(13u8);
    v.push(10u8);
    v.push(13u8);
    v.push(10u8);
    proof {
        assert(v@ =~= ok_status_line());
    }
    v
}

/// The reply to a read request: the status line followed by the static page,
/// byte for byte. The result is a function of the page alone, so identical
/// pages yield identical replies whatever happened before.
pub fn page_response(page: &[u8]) -> (v: Vec<u8>)
    ensures
        v@ == ok_status_line() + page@,
{
    let mut v = ok_response();
    let mut i: usize = 0;
    while i < page.len()
        invariant
            0 <= i <= page@.len(),
            v@ == ok_status_line() + page@.subrange(0, i as int),
        decreases page@.len() - i,
    {
        v.push(page[i]);
        proof {
            assert(v@ =~= ok_status_line() + page@.subrange(0, i + 1 as int));
        }
        i = i + 1;
    }
    proof {
        assert(page@.subrange(0, page@.len() as int) =~= page@);
    }
    v
}

/// The bounded per-connection buffer that accumulates one request. A write
/// cursor tracks how much has been stored; each newly read window is appended
/// after what is already there, and bytes past the capacity are refused.
pub struct InboundBuffer {
    data: Vec<u8>,
    cap: usize,
}

impl View for InboundBuffer {
    type V = Seq<u8>;

    closed spec fn view(&self) -> Seq<u8> {
        self.data@
    }
}

impl InboundBuffer {
    /// The fixed capacity this buffer was made with.
    pub closed spec fn spec_capacity(&self) -> nat {
        self.cap as nat
    }

    /// The buffer never holds more bytes than its capacity.
    pub open spec fn wf(&self) -> bool {
        self@.len() <= self.spec_capacity()
    }

    /// A fresh, empty buffer of the given capacity.
    pub fn new(cap: usize) -> (b: InboundBuffer)
        ensures
            b@ == Seq::<u8>::empty(),
            b.spec_capacity() == cap,
            b.wf(),
    {
        InboundBuffer { data: Vec::new(), cap }
    }

    /// The fixed capacity this buffer was made with.
    pub fn capacity(&self) -> (c: usize)
        ensures
            c == self.spec_capacity(),
    {
        self.cap
    }

    /// How many bytes are stored so far.
    pub fn len(&self) -> (n: usize)
        ensures
            n == self@.len(),
    {
        self.data.len()
    }

    /// The accumulated request bytes, oldest first.
    pub fn bytes(&self) -> (s: &[u8])
        ensures
            s@ == self@,
    {
        self.data.as_slice()
    }

    /// Appends one newly read window after the bytes already stored. Returns
    /// how many bytes were taken: the whole chunk when it fits, otherwise
    /// exactly up to capacity, the rest refused.
    pub fn push_chunk(&mut self, chunk: &[u8]) -> (taken: usize)
        requires
            old(self).wf(),
        ensures
            final(self).wf(),
            final(self).spec_capacity() == old(self).spec_capacity(),
            taken == if chunk@.len() <= old(self).spec_capacity() - old(self)@.len() {
                chunk@.len() as int
            } else {
                old(self).spec_capacity() - old(self)@.len()
            },
            final(self)@ == old(self)@ + chunk@.subrange(0, taken as int),
    {
        let room = self.cap - self.data.len();
        let take = if chunk.len() <= room {
            chunk.len()
        } else {
            room
        };
        let mut i: usize = 0;
        while i < take
            invariant
                0 <= i <= take <= chunk@.len(),
                self.data@ == old(self)@ + chunk@.subrange(0, i as int),
                self.data@.len() + (take - i) <= self.cap,
                self.cap == old(self).spec_capacity(),
            decreases take - i,
        {
            self.data.push(chunk[i]);
            proof {
                assert(self.data@ =~= old(self)@ + chunk@.subrange(0, i + 1 as int));
            }
            i = i + 1;
        }
        take
    }
}

} // verus!
