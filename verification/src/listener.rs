//! The listener's decision logic: from buffered request bytes to a reply and
//! at most one color command.
//!
//! A write request is answered with the bare status line before its body is
//! looked at; the body line — the first line that opens with a brace — is
//! then parsed, and a well-formed color object becomes the one command the
//! request contributes. A malformed body contributes nothing and is dropped
//! silently: the client has already received the success line. A read request
//! is answered with the status line and the static page and never contributes
//! a command.

use vstd::prelude::*;

use crate::color::ColorCommand;
use crate::http::classify;
use crate::http::ok_response;
use crate::http::ok_status_line;
use crate::http::page_response;
use crate::http::read_token;
use crate::http::seq_starts_with;
use crate::http::write_token;
use crate::http::ReplyKind;
use crate::http::RequestKind;
use crate::parse::is_valid_color_body;
use crate::parse::parse_color;
use crate::parse::parse_color_bytes;
use crate::parse::BYTE_CR;
use crate::parse::BYTE_LBRACE;
use crate::parse::BYTE_LF;

verus! {

/// Whether position `i` opens a line that begins with a brace.
pub open spec fn is_body_start(s: Seq<u8>, i: int) -> bool {
    0 <= i < s.len() && s[i] == BYTE_LBRACE && (i == 0 || s[i - 1] == BYTE_LF)
}

/// The first position at or after `i` that opens a brace line, if any.
pub open spec fn find_body_start(s: Seq<u8>, i: int) -> Option<int>
    decreases s.len() - i
        when 0 <= i <= s.len()
{
    if i >= s.len() {
        None
    } else if is_body_start(s, i) {
        Some(i)
    } else {
        find_body_start(s, i + 1)
    }
}

/// The position of the first line feed at or after `i`, or the end.
pub open spec fn find_line_end(s: Seq<u8>, i: int) -> int
    decreases s.len() - i
        when 0 <= i <= s.len()
{
    if i < s.len() && s[i] != BYTE_LF {
        find_line_end(s, i + 1)
    } else {
        i
    }
}

/// The body line of a request: the first line that opens with a brace, up to
/// but not including its line feed, a carriage return before that line feed
/// stripped. `None` when no line opens with a brace.
pub open spec fn body_line(s: Seq<u8>) -> Option<Seq<u8>> {
    match find_body_start(s, 0) {
        None => None,
        Some(i) => {
            let j = find_line_end(s, i);
            let e = if j < s.len() && i < j && s[j - 1] == BYTE_CR {
                j - 1
            } else {
                j
            };
            Some(s.subrange(i, e))
        },
    }
}

/// How a request is answered and what it contributes to the channel.
#[derive(Clone, Copy, Debug, PartialEq, Eq)]
pub struct RequestDecision {
    /// Which reply bytes are owed to the client.
    pub reply: ReplyKind,
    /// The one color command the request contributes, if any.
    pub command: Option<ColorCommand>,
}

/// The decision for a buffered request: a write request is acknowledged with
/// the bare status line and contributes the parsed color of its body line, if
/// that line is a well-formed color object; a read request gets the page and
/// contributes nothing; anything else gets no reply.
pub open spec fn decision_of(s: Seq<u8>) -> RequestDecision {
    if seq_starts_with(s, write_token()) {
        RequestDecision {
            reply: ReplyKind::StatusOnly,
            command: match body_line(s) {
                Some(b) => parse_color(b),
                None => None,
            },
        }
    } else if seq_starts_with(s, read_token()) {
        RequestDecision { reply: ReplyKind::StatusAndPage, command: None }
    } else {
        RequestDecision { reply: ReplyKind::NoReply, command: None }
    }
}

/// The reply bytes a decision owes, given the static page.
pub open spec fn reply_bytes(d: RequestDecision, page: Seq<u8>) -> Seq<u8> {
    match d.reply {
        ReplyKind::StatusOnly => ok_status_line(),
        ReplyKind::StatusAndPage => ok_status_line() + page,
        ReplyKind::NoReply => Seq::empty(),
    }
}

/// The first position that opens a brace line, if any.
fn find_body_start_bytes(s: &[u8]) -> (r: Option<usize>)
    ensures
        (match r {
            Some(i) => find_body_start(s@, 0) == Some(i as int) && i < s@.len(),
            None => find_body_start(s@, 0) is None,
        }),
{
    let mut i: usize = 0;
    while i < s.len()
        invariant
            0 <= i <= s@.len(),
            find_body_start(s@, 0) == find_body_start(s@, i as int),
        decreases s@.len() - i,
    {
        if s[i] == BYTE_LBRACE && (i == 0 || s[i - 1] == BYTE_LF) {
            return Some(i);
        }
        i = i + 1;
    }
    None
}

/// The position of the first line feed at or after `i`, or the end.
fn find_line_end_bytes(s: &[u8], i: usize) -> (j: usize)
    requires
        i <= s@.len(),
    ensures
        j == find_line_end(s@, i as int),
        i <= j <= s@.len(),
{
    let mut j = i;
    while j < s.len() && s[j] != BYTE_LF
        invariant
            i <= j <= s@.len(),
            find_line_end(s@, i as int) == find_line_end(s@, j as int),
        decreases s@.len() - j,
    {
        j = j + 1;
    }
    j
}

/// Copies the body line out of the buffered request, if one is there.
pub fn extract_body_line(s: &[u8]) -> (r: Option<Vec<u8>>)
    ensures
        (match r {
            Some(v) => body_line(s@) == Some(v@),
            None => body_line(s@) is None,
        }),
{
    let start = match find_body_start_bytes(s) {
        None => {
            return None;
        },
        Some(i) => i,
    };
    let line_end = find_line_end_bytes(s, start);
    let end = if line_end < s.len() && start < line_end && s[line_end - 1] == BYTE_CR {
        line_end - 1
    } else {
        line_end
    };
    let mut v: Vec<u8> = Vec::new();
    let mut i = start;
    while i < end
        invariant
            start <= i <= end <= s@.len(),
            v@ == s@.subrange(start as int, i as int),
        decreases end - i,
    {
        v.push(s[i]);
        proof {
            assert(v@ =~= s@.subrange(start as int, i + 1 as int));
        }
        i = i + 1;
    }
    Some(v)
}

/// Decides how a buffered request is answered and which command, if any, it
/// contributes to the channel. Returns exactly [`decision_of`] the buffer.
pub fn decide_request(buf: &[u8]) -> (d: RequestDecision)
    ensures
        d == decision_of(buf@),
{
    match classify(buf) {
        RequestKind::Write => {
            let command = match extract_body_line(buf) {
                Some(body) => parse_color_bytes(body.as_slice()),
                None => None,
            };
            RequestDecision { reply: ReplyKind::StatusOnly, command }
        },
        RequestKind::Read => RequestDecision { reply: ReplyKind::StatusAndPage, command: None },
        RequestKind::Other => RequestDecision { reply: ReplyKind::NoReply, command: None },
    }
}

/// The reply bytes a decision owes, given the static page.
pub fn reply_for(d: &RequestDecision, page: &[u8]) -> (v: Vec<u8>)
    ensures
        v@ == reply_bytes(*d, page@),
{
    match d.reply {
        ReplyKind::StatusOnly => ok_response(),
        ReplyKind::StatusAndPage => page_response(page),
        ReplyKind::NoReply => Vec::new(),
    }
}

/// Law: a write request whose body line is a well-formed color object
/// contributes exactly the one command carrying the parsed channels, and is
/// acknowledged with the bare status line.
pub proof fn lemma_valid_write_yields_command(s: Seq<u8>, c: ColorCommand)
    requires
        seq_starts_with(s, write_token()),
        body_line(s) is Some,
        parse_color(body_line(s)->Some_0) == Some(c),
    ensures
        decision_of(s).reply == ReplyKind::StatusOnly,
        decision_of(s).command == Some(c),
{
}

/// Law: a write request whose body is malformed — no brace line at all, or a
/// line the color grammar refuses — contributes no command, yet is still
/// acknowledged with the bare status line.
pub proof fn lemma_malformed_write_yields_no_command(s: Seq<u8>)
    requires
        seq_starts_with(s, write_token()),
        body_line(s) is None || !is_valid_color_body(body_line(s)->Some_0),
    ensures
        decision_of(s).reply == ReplyKind::StatusOnly,
        decision_of(s).command is None,
{
}

/// Law: every read request is answered with the status line followed by the
/// page, byte for byte — the same bytes whatever was requested or queued
/// before — and contributes no command.
pub proof fn lemma_read_reply_uniform(s: Seq<u8>, page: Seq<u8>)
    requires
        !seq_starts_with(s, write_token()),
        seq_starts_with(s, read_token()),
    ensures
        decision_of(s).reply == ReplyKind::StatusAndPage,
        decision_of(s).command is None,
        reply_bytes(decision_of(s), page) == ok_status_line() + page,
{
}

} // verus!
