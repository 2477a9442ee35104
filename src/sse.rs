//! Incremental decoding of a server-sent-event byte stream into text tokens.
//!
//! Bytes arrive in arbitrary chunks. A line ends at `\n` (a `\r` right before
//! it is dropped); only complete lines are decoded, and the partial line at
//! the end of a chunk waits for the next one. A line is relevant when, once
//! trimmed, it starts with `data: `; its trimmed remainder is the payload.
//! Payloads `[DONE]` and empty ones are ignored; any other payload is read
//! as a JSON object whose string member `content`, when present, is a token.

use vstd::prelude::*;
use vstd::slice::slice_subrange;
use vstd::utf8::{decode_utf8, valid_utf8};
use crate::text::{matches_at, trim, trimmed};

verus! {

/// What the JSON object in `payload` holds under `key`, when that is a string.
pub uninterp spec fn string_member_of(payload: Seq<char>, key: Seq<char>) -> Option<Seq<char>>;

/// Relies on serde_json::from_str: reads the payload as a JSON object; the
/// result depends on the payload and the key alone. Anything but an object
/// whose member `key` is a string gives `None`.
#[verifier::external_body]
fn json_string_member(payload: &str, key: &str) -> (r: Option<String>)
    ensures
        r.deep_view() == string_member_of(payload@, key@),
{
    match serde_json::from_str::<std::collections::HashMap<String, serde_json::Value>>(payload) {
        Ok(mut members) => match members.remove(key) {
            Some(serde_json::Value::String(c)) => Some(c),
            _ => None,
        },
        Err(_) => None,
    }
}

/// Relies on std::str::from_utf8: it accepts exactly the valid UTF-8
/// sequences and reads them as the characters they encode.
#[verifier::external_body]
fn utf8_text(bytes: &[u8]) -> (r: Option<String>)
    ensures
        r is Some <==> valid_utf8(bytes@),
        r matches Some(t) ==> t@ == decode_utf8(bytes@),
{
    std::str::from_utf8(bytes).ok().map(|t| t.to_string())
}

pub open spec fn data_prefix() -> Seq<char> {
    seq!['d', 'a', 't', 'a', ':', ' ']
}

pub open spec fn done_marker() -> Seq<char> {
    seq!['[', 'D', 'O', 'N', 'E', ']']
}

/// The payload of one complete line, when the line carries one.
pub open spec fn data_payload(line: Seq<u8>) -> Option<Seq<char>> {
    if !valid_utf8(line) {
        None
    } else {
        let t = trimmed(decode_utf8(line));
        if t.len() >= 6 && t.subrange(0, 6) == data_prefix() {
            let rest = trimmed(t.subrange(6, t.len() as int));
            if rest.len() == 0 || rest == done_marker() {
                None
            } else {
                Some(rest)
            }
        } else {
            None
        }
    }
}

/// The member of a payload that carries the token.
pub open spec fn content_key() -> Seq<char> {
    "content"@
}

/// The token a complete line yields, if any.
pub open spec fn line_token(line: Seq<u8>) -> Option<Seq<char>> {
    match data_payload(line) {
        Some(p) => string_member_of(p, content_key()),
        None => None,
    }
}

/// A line without the `\r` that ended it.
pub open spec fn strip_cr(line: Seq<u8>) -> Seq<u8> {
    if line.len() > 0 && line.last() == 13u8 {
        line.drop_last()
    } else {
        line
    }
}

pub open spec fn with_token(toks: Seq<Seq<char>>, t: Option<Seq<char>>) -> Seq<Seq<char>> {
    match t {
        Some(c) => toks.push(c),
        None => toks,
    }
}

/// Decoding `s` after tokens `toks` were emitted and while `cur` holds the
/// partial line: the tokens emitted by then, and the partial line left.
pub open spec fn decode(toks: Seq<Seq<char>>, cur: Seq<u8>, s: Seq<u8>) -> (Seq<Seq<char>>, Seq<u8>)
    decreases s.len(),
{
    if s.len() == 0 {
        (toks, cur)
    } else if s[0] == 10u8 {
        decode(with_token(toks, line_token(strip_cr(cur))), Seq::empty(), s.drop_first())
    } else {
        decode(toks, cur.push(s[0]), s.drop_first())
    }
}

/// The tokens emitted when `chunks` are fed one after another to a decoder
/// that holds the partial line `cur`.
pub open spec fn tokens_fed(cur: Seq<u8>, chunks: Seq<Seq<u8>>) -> Seq<Seq<char>>
    decreases chunks.len(),
{
    if chunks.len() == 0 {
        Seq::empty()
    } else {
        let r = decode(Seq::empty(), cur, chunks[0]);
        r.0 + tokens_fed(r.1, chunks.drop_first())
    }
}

/// The tokens laid end to end.
pub open spec fn joined(toks: Seq<Seq<char>>) -> Seq<char>
    decreases toks.len(),
{
    if toks.len() == 0 {
        Seq::empty()
    } else {
        joined(toks.drop_last()) + toks.last()
    }
}

proof fn lemma_decode_append(toks: Seq<Seq<char>>, cur: Seq<u8>, s: Seq<u8>, t: Seq<u8>)
    ensures
        decode(toks, cur, s + t) == decode(decode(toks, cur, s).0, decode(toks, cur, s).1, t),
    decreases s.len(),
{
    if s.len() == 0 {
        assert(s + t =~= t);
    } else {
        assert((s + t).drop_first() =~= s.drop_first() + t);
        if s[0] == 10u8 {
            lemma_decode_append(
                with_token(toks, line_token(strip_cr(cur))),
                Seq::empty(),
                s.drop_first(),
                t,
            );
        } else {
            lemma_decode_append(toks, cur.push(s[0]), s.drop_first(), t);
        }
    }
}

proof fn lemma_decode_prefix(toks: Seq<Seq<char>>, cur: Seq<u8>, s: Seq<u8>)
    ensures
        decode(toks, cur, s).0 == toks + decode(Seq::empty(), cur, s).0,
        decode(toks, cur, s).1 == decode(Seq::empty(), cur, s).1,
    decreases s.len(),
{
    if s.len() == 0 {
        assert(toks + Seq::<Seq<char>>::empty() =~= toks);
    } else if s[0] == 10u8 {
        let t = line_token(strip_cr(cur));
        lemma_decode_prefix(with_token(toks, t), Seq::empty(), s.drop_first());
        lemma_decode_prefix(with_token(Seq::empty(), t), Seq::empty(), s.drop_first());
        let rest = decode(Seq::empty(), Seq::empty(), s.drop_first()).0;
        assert(with_token(toks, t) + rest =~= toks + (with_token(Seq::empty(), t) + rest));
    } else {
        lemma_decode_prefix(toks, cur.push(s[0]), s.drop_first());
    }
}

proof fn lemma_joined_concat(a: Seq<Seq<char>>, b: Seq<Seq<char>>)
    ensures
        joined(a + b) == joined(a) + joined(b),
    decreases b.len(),
{
    if b.len() == 0 {
        assert(a + b =~= a);
        assert(joined(a) + joined(b) =~= joined(a));
    } else {
        lemma_joined_concat(a, b.drop_last());
        assert((a + b).drop_last() =~= a + b.drop_last());
        assert(joined(a) + joined(b) =~= joined(a) + joined(b.drop_last()) + b.last());
    }
}

/// Chunk boundaries do not matter: feeding the chunks one after another
/// emits exactly the tokens that decoding their concatenation in one piece
/// does, in the same order, and their text is the same.
pub proof fn lemma_chunking_is_irrelevant(chunks: Seq<Seq<u8>>)
    ensures
        tokens_fed(Seq::empty(), chunks) == decode(Seq::empty(), Seq::empty(), chunks.flatten()).0,
        joined(tokens_fed(Seq::empty(), chunks)) == joined(
            decode(Seq::empty(), Seq::empty(), chunks.flatten()).0,
        ),
{
    lemma_fed_matches_whole(Seq::empty(), chunks);
}

proof fn lemma_fed_matches_whole(cur: Seq<u8>, chunks: Seq<Seq<u8>>)
    ensures
        tokens_fed(cur, chunks) == decode(Seq::empty(), cur, chunks.flatten()).0,
    decreases chunks.len(),
{
    if chunks.len() > 0 {
        let r = decode(Seq::empty(), cur, chunks[0]);
        assert(chunks.flatten() =~= chunks[0] + chunks.drop_first().flatten()) by {
            chunks.lemma_flatten_one_element();
            lemma_flatten_first(chunks);
        }
        lemma_decode_append(Seq::empty(), cur, chunks[0], chunks.drop_first().flatten());
        lemma_decode_prefix(r.0, r.1, chunks.drop_first().flatten());
        lemma_fed_matches_whole(r.1, chunks.drop_first());
    }
}

proof fn lemma_flatten_first(chunks: Seq<Seq<u8>>)
    requires
        chunks.len() > 0,
    ensures
        chunks.flatten() == chunks[0] + chunks.drop_first().flatten(),
{
    assert(chunks.flatten() == chunks.first() + chunks.drop_first().flatten());
}

/// The payload of a complete line (without its line ending), if it has one.
pub fn sse_data_payload(line: &[u8]) -> (r: Option<String>)
    ensures
        r.deep_view() == data_payload(line@),
{
    proof {
        reveal_strlit("data: ");
        reveal_strlit("[DONE]");
    }
    let decoded = match utf8_text(line) {
        Some(d) => d,
        None => return None,
    };
    let t = trim(decoded.as_str());
    assert("data: "@ =~= data_prefix());
    assert("[DONE]"@ =~= done_marker());
    if !matches_at(t.as_str(), 0, "data: ") {
        return None;
    }
    assert(t@.subrange(0, 6) == data_prefix());
    let n = t.as_str().unicode_len();
    let rest = trim(t.as_str().substring_char(6, n));
    let rn = rest.as_str().unicode_len();
    if rn == 0 || (rn == 6 && matches_at(rest.as_str(), 0, "[DONE]")) {
        proof {
            if rn == 6 && rest@.subrange(0, 6) == done_marker() {
                assert(rest@ =~= done_marker());
            }
        }
        return None;
    }
    proof {
        if rest@ == done_marker() {
            assert(rest@.subrange(0, 6) =~= rest@);
        }
    }
    Some(rest)
}

/// Decoder state: the partial line carried over and the text gathered so far.
pub struct SseDecoder {
    partial: Vec<u8>,
    text: String,
}

impl SseDecoder {
    /// The bytes of the line not yet complete.
    pub closed spec fn partial_line(&self) -> Seq<u8> {
        self.partial@
    }

    /// All tokens emitted so far, laid end to end.
    pub closed spec fn text_view(&self) -> Seq<char> {
        self.text@
    }

    pub fn new() -> (r: Self)
        ensures
            r.partial_line() == Seq::<u8>::empty(),
            r.text_view() == Seq::<char>::empty(),
    {
        SseDecoder { partial: Vec::new(), text: String::new() }
    }

    /// Takes the next chunk of the stream and returns, in order, the tokens
    /// of the lines it completes.
    pub fn feed(&mut self, chunk: &[u8]) -> (tokens: Vec<String>)
        ensures
            tokens.deep_view() == decode(Seq::empty(), old(self).partial_line(), chunk@).0,
            final(self).partial_line() == decode(Seq::empty(), old(self).partial_line(), chunk@).1,
            final(self).text_view() == old(self).text_view() + joined(tokens.deep_view()),
    {
        let mut tokens: Vec<String> = Vec::new();
        let mut i: usize = 0;
        assert(chunk@.subrange(0, 0) =~= Seq::<u8>::empty());
        while i < chunk.len()
            invariant
                i <= chunk@.len(),
                decode(Seq::empty(), old(self).partial@, chunk@.subrange(0, i as int)) == (
                    tokens.deep_view(),
                    self.partial@,
                ),
                self.text@ == old(self).text@ + joined(tokens.deep_view()),
            decreases chunk@.len() - i,
        {
            let b = chunk[i];
            let ghost toks0 = tokens.deep_view();
            let ghost cur0 = self.partial@;
            proof {
                lemma_decode_append(
                    Seq::empty(),
                    old(self).partial@,
                    chunk@.subrange(0, i as int),
                    seq![b],
                );
                assert(chunk@.subrange(0, i as int) + seq![b] =~= chunk@.subrange(0, i + 1));
                assert(seq![b].drop_first() =~= Seq::<u8>::empty());
            }
            if b == 10u8 {
                let n = self.partial.len();
                let end: usize = if n > 0 && self.partial[n - 1] == 13u8 { n - 1 } else { n };
                let line = slice_subrange(self.partial.as_slice(), 0, end);
                assert(line@ == strip_cr(self.partial@)) by {
                    if n > 0 && self.partial@[n - 1] == 13u8 {
                        assert(line@ =~= self.partial@.drop_last());
                    } else {
                        assert(line@ =~= self.partial@);
                    }
                }
                let ghost before = tokens.deep_view();
                let ghost text_before = self.text@;
                match sse_data_payload(line) {
                    Some(p) => {
                        match json_string_member(p.as_str(), "content") {
                            Some(c) => {
                                self.text.append(c.as_str());
                                tokens.push(c);
                                assert(tokens.deep_view() =~= before.push(c@));
                                assert(before.push(c@).drop_last() =~= before);
                            },
                            None => {},
                        }
                    },
                    None => {},
                }
                self.partial = Vec::new();
                assert(tokens.deep_view() == with_token(toks0, line_token(strip_cr(cur0))));
                assert(decode(toks0, cur0, seq![b]) == decode(
                    with_token(toks0, line_token(strip_cr(cur0))),
                    Seq::empty(),
                    Seq::empty(),
                ));
            } else {
                self.partial.push(b);
                assert(decode(toks0, cur0, seq![b]) == decode(toks0, cur0.push(b), Seq::empty()));
            }
            i = i + 1;
        }
        assert(chunk@.subrange(0, chunk@.len() as int) =~= chunk@);
        tokens
    }

    /// The text of all tokens emitted so far.
    pub fn text(&self) -> (r: String)
        ensures
            r@ == self.text_view(),
    {
        self.text.clone()
    }
}

} // verus!
