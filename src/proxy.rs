//! The request side: which endpoint to call, what a reply or a failure
//! turns into, the fallback from the chat endpoint to the raw completion
//! endpoint, and the life of a streamed run that can be cancelled.

use vstd::prelude::*;
use crate::cancel::CancelRegistry;
use crate::health::{local_url, local_url_string};
use crate::sse::{decode, joined, SseDecoder};
use crate::text::{trim, trimmed};

verus! {

pub open spec fn completion_path() -> Seq<char> {
    "/completion"@
}

pub open spec fn chat_completions_path() -> Seq<char> {
    "/v1/chat/completions"@
}

/// The raw completion endpoint of the server at `port`.
pub fn completion_url(port: u16) -> (r: String)
    ensures
        r@ == local_url(port, completion_path()),
{
    local_url_string(port, "/completion")
}

/// The chat-completions endpoint of the server at `port`.
pub fn chat_completions_url(port: u16) -> (r: String)
    ensures
        r@ == local_url(port, chat_completions_path()),
{
    local_url_string(port, "/v1/chat/completions")
}

pub open spec fn not_started_message(for_chat: bool) -> Seq<char> {
    if for_chat {
        "Runtime not started. Start the runtime with a GGUF model first.\nEndpoint: n/a (runtime not started)"@
    } else {
        "Runtime not started. Start the runtime with a GGUF model first."@
    }
}

/// The port requests go to, or the error of a runtime not started.
pub fn require_port(port: Option<u16>, for_chat: bool) -> (r: Result<u16, String>)
    ensures
        port matches Some(p) ==> r == Ok::<u16, String>(p),
        port is None ==> (r matches Err(e) && e@ == not_started_message(for_chat)),
{
    match port {
        Some(p) => Ok(p),
        None => if for_chat {
            Err(
                String::from_str(
                    "Runtime not started. Start the runtime with a GGUF model first.\nEndpoint: n/a (runtime not started)",
                ),
            )
        } else {
            Err(String::from_str("Runtime not started. Start the runtime with a GGUF model first."))
        },
    }
}

/// Token limit of a generation when none is given.
pub const DEFAULT_GENERATE_MAX_TOKENS: i32 = 2048;

/// Token limit of a chat when none is given.
pub const DEFAULT_CHAT_MAX_TOKENS: i32 = 512;

/// A requested token limit, or `default` when it is not positive.
pub fn max_tokens_or(requested: i32, default: i32) -> (r: i32)
    ensures
        r == if requested > 0 { requested } else { default },
{
    if requested > 0 {
        requested
    } else {
        default
    }
}

/// The single prompt a chat becomes on the raw completion endpoint.
pub open spec fn combined_prompt_spec(system: Seq<char>, user: Seq<char>) -> Seq<char> {
    trimmed(system) + "\n\n"@ + trimmed(user)
}

pub fn combined_prompt(system: &str, user: &str) -> (r: String)
    ensures
        r@ == combined_prompt_spec(system@, user@),
{
    let mut p = trim(system);
    p.append("\n\n");
    p.append(trim(user).as_str());
    p
}

/// What a request to the raw completion endpoint came to.
pub enum CompletionReply {
    /// No response: the transport's error.
    NoResponse(String),
    /// A response with a status other than success: the status line and the body.
    HttpError(String, String),
    /// A success whose body could not be read: the reader's error.
    Unreadable(String),
    /// A success whose body was read: its `content`, if it had one.
    Content(Option<String>),
}

pub open spec fn content_or_empty(c: Option<String>) -> Seq<char> {
    match c {
        Some(s) => s@,
        None => Seq::empty(),
    }
}

/// The outcome of a chat once the request reached the raw completion
/// endpoint at `url`. Failures name that endpoint.
pub open spec fn chat_completion_outcome(url: Seq<char>, reply: CompletionReply) -> Result<Seq<char>, Seq<char>> {
    match reply {
        CompletionReply::NoResponse(e) => Err(
            "Request failed: "@ + e@ + "\nEndpoint: "@ + url + " (no response)"@,
        ),
        CompletionReply::HttpError(status, body) => Err(
            "llama-server error "@ + status@ + ": "@ + body@ + "\nEndpoint: "@ + url + " HTTP "@
                + status@,
        ),
        CompletionReply::Unreadable(e) => Err("Parse error: "@ + e@),
        CompletionReply::Content(c) => Ok(trimmed(content_or_empty(c))),
    }
}

/// The outcome of a plain generation from the raw completion endpoint.
pub open spec fn generate_outcome(reply: CompletionReply) -> Result<Seq<char>, Seq<char>> {
    match reply {
        CompletionReply::NoResponse(e) => Err("Request failed: "@ + e@),
        CompletionReply::HttpError(status, body) => Err("Server error "@ + status@ + ": "@ + body@),
        CompletionReply::Unreadable(e) => Err("Parse error: "@ + e@),
        CompletionReply::Content(c) => Ok(content_or_empty(c)),
    }
}

pub open spec fn result_view(r: Result<String, String>) -> Result<Seq<char>, Seq<char>> {
    match r {
        Ok(s) => Ok(s@),
        Err(e) => Err(e@),
    }
}

fn text_of(c: Option<String>) -> (r: String)
    ensures
        r@ == content_or_empty(c),
{
    match c {
        Some(s) => s,
        None => String::new(),
    }
}

/// The result of a chat from the reply of the raw completion endpoint.
pub fn chat_completion_result(port: u16, reply: CompletionReply) -> (r: Result<String, String>)
    ensures
        result_view(r) == chat_completion_outcome(local_url(port, completion_path()), reply),
{
    let url = completion_url(port);
    match reply {
        CompletionReply::NoResponse(e) => {
            let mut m = String::from_str("Request failed: ");
            m.append(e.as_str());
            m.append("\nEndpoint: ");
            m.append(url.as_str());
            m.append(" (no response)");
            Err(m)
        },
        CompletionReply::HttpError(status, body) => {
            let mut m = String::from_str("llama-server error ");
            m.append(status.as_str());
            m.append(": ");
            m.append(body.as_str());
            m.append("\nEndpoint: ");
            m.append(url.as_str());
            m.append(" HTTP ");
            m.append(status.as_str());
            Err(m)
        },
        CompletionReply::Unreadable(e) => {
            let mut m = String::from_str("Parse error: ");
            m.append(e.as_str());
            Err(m)
        },
        CompletionReply::Content(c) => {
            let t = text_of(c);
            Ok(trim(t.as_str()))
        },
    }
}

/// The result of a plain generation from the reply of the raw completion
/// endpoint.
pub fn generate_result(reply: CompletionReply) -> (r: Result<String, String>)
    ensures
        result_view(r) == generate_outcome(reply),
{
    match reply {
        CompletionReply::NoResponse(e) => {
            let mut m = String::from_str("Request failed: ");
            m.append(e.as_str());
            Err(m)
        },
        CompletionReply::HttpError(status, body) => {
            let mut m = String::from_str("Server error ");
            m.append(status.as_str());
            m.append(": ");
            m.append(body.as_str());
            Err(m)
        },
        CompletionReply::Unreadable(e) => {
            let mut m = String::from_str("Parse error: ");
            m.append(e.as_str());
            Err(m)
        },
        CompletionReply::Content(c) => Ok(text_of(c)),
    }
}

/// What a chat does after trying the chat-completions endpoint.
pub enum ChatStep {
    Finished(Result<String, String>),
    /// Send the combined prompt to the raw completion endpoint and pass its
    /// reply to `chat_completion_result`.
    TryCompletion,
}

/// Given the assistant content that the chat-completions endpoint returned
/// (`None` for a transport failure, a status other than success, or a body
/// without content), finishes the chat or falls back.
pub fn after_chat_completions(content: Option<String>) -> (r: ChatStep)
    ensures
        content matches Some(c) ==> (r matches ChatStep::Finished(res) && result_view(res) == Ok::<
            Seq<char>,
            Seq<char>,
        >(trimmed(c@))),
        content is None ==> r is TryCompletion,
{
    match content {
        Some(c) => ChatStep::Finished(Ok(trim(c.as_str()))),
        None => ChatStep::TryCompletion,
    }
}

/// The fallback chain: a chat whose first endpoint gave nothing usable ends
/// as the raw completion endpoint's reply says. A successful reply gives the
/// result; a failed one gives an error that depends on that reply and that
/// endpoint alone.
pub proof fn lemma_fallback_decides(port: u16, reply: CompletionReply)
    ensures
        reply matches CompletionReply::Content(c) ==> chat_completion_outcome(
            local_url(port, completion_path()),
            reply,
        ) == Ok::<Seq<char>, Seq<char>>(trimmed(content_or_empty(c))),
        reply matches CompletionReply::NoResponse(e) ==> chat_completion_outcome(
            local_url(port, completion_path()),
            reply,
        ) == Err::<Seq<char>, Seq<char>>(
            "Request failed: "@ + e@ + "\nEndpoint: "@ + local_url(port, completion_path())
                + " (no response)"@,
        ),
        reply matches CompletionReply::HttpError(status, body) ==> chat_completion_outcome(
            local_url(port, completion_path()),
            reply,
        ) == Err::<Seq<char>, Seq<char>>(
            "llama-server error "@ + status@ + ": "@ + body@ + "\nEndpoint: "@ + local_url(
                port,
                completion_path(),
            ) + " HTTP "@ + status@,
        ),
{
}

pub open spec fn cancelled_message() -> Seq<char> {
    "Run cancelled or timed out."@
}

/// The error of a run that was cancelled.
pub fn cancelled_error() -> (r: String)
    ensures
        r@ == cancelled_message(),
{
    String::from_str("Run cancelled or timed out.")
}

/// What happened next on a run.
pub enum StreamEvent {
    /// The streamed request failed or was answered with a status other than
    /// success, before any body arrived.
    SetupFailed,
    /// Bytes of the response body arrived.
    Chunk(Vec<u8>),
    /// Reading the body failed.
    Failed(String),
    /// The body ended.
    Ended,
    /// The run's cancel signal fired.
    Cancelled,
}

/// What a streamed run does next.
pub enum StreamStep {
    /// Emit these tokens, in order, and wait for the next event.
    Tokens(Vec<String>),
    Finished(Result<String, String>),
    /// Give up the stream and answer without streaming (for a chat, through
    /// the chat fallback chain); the run stays registered until `finish`.
    FallBack,
}

/// A generation or chat in flight, registered for cancellation from
/// before its first request until it ends.
pub struct StreamRun {
    decoder: SseDecoder,
    run_id: Option<String>,
    for_chat: bool,
}

pub open spec fn id_view(run_id: Option<String>) -> Option<Seq<char>> {
    match run_id {
        Some(s) => Some(s@),
        None => None,
    }
}

/// The registry once the run with this id, if any, is gone from it.
pub open spec fn released<S>(live: Map<Seq<char>, S>, run_id: Option<Seq<char>>) -> Map<Seq<char>, S> {
    match run_id {
        Some(id) => live.remove(id),
        None => live,
    }
}

/// Removes the entry of a finished run, if it has one, and drops its sender.
pub fn release_run<S>(registry: &mut CancelRegistry<S>, run_id: &Option<String>)
    requires
        old(registry).wf(),
    ensures
        final(registry).wf(),
        final(registry).view() == released(old(registry).view(), id_view(*run_id)),
{
    match run_id {
        Some(id) => {
            let _ = registry.cancel(id.as_str());
        },
        None => {},
    }
}

impl StreamRun {
    pub closed spec fn run_id(&self) -> Option<Seq<char>> {
        id_view(self.run_id)
    }

    pub closed spec fn for_chat(&self) -> bool {
        self.for_chat
    }

    pub closed spec fn partial_line(&self) -> Seq<u8> {
        self.decoder.partial_line()
    }

    /// The text of the tokens emitted so far.
    pub closed spec fn text(&self) -> Seq<char> {
        self.decoder.text_view()
    }

    /// Starts a run, before any request is sent. With a run id, `sender` is
    /// registered to cancel it; a sender registered before under that id is
    /// handed back.
    pub fn begin<S>(
        run_id: Option<String>,
        for_chat: bool,
        sender: S,
        registry: &mut CancelRegistry<S>,
    ) -> (r: (StreamRun, Option<S>))
        requires
            old(registry).wf(),
        ensures
            final(registry).wf(),
            r.0.run_id() == id_view(run_id),
            r.0.for_chat() == for_chat,
            r.0.partial_line() == Seq::<u8>::empty(),
            r.0.text() == Seq::<char>::empty(),
            run_id matches Some(id) ==> final(registry).view() == old(registry).view().insert(
                id@,
                sender,
            ) && (if old(registry).view().contains_key(id@) {
                r.1 == Some(old(registry).view()[id@])
            } else {
                r.1 is None
            }),
            run_id is None ==> final(registry).view() == old(registry).view() && r.1 is None,
    {
        let displaced = match &run_id {
            Some(id) => registry.register(id.clone(), sender),
            None => None,
        };
        (StreamRun { decoder: SseDecoder::new(), run_id, for_chat }, displaced)
    }

    /// Takes the next event of the run. A chunk yields its tokens; a failed
    /// setup, or a broken chat stream, falls back without streaming and
    /// keeps the run registered; anything else ends the run and removes it
    /// from the registry.
    pub fn on_event<S>(&mut self, event: StreamEvent, registry: &mut CancelRegistry<S>) -> (r: StreamStep)
        requires
            old(registry).wf(),
        ensures
            final(registry).wf(),
            final(self).run_id() == old(self).run_id(),
            final(self).for_chat() == old(self).for_chat(),
            event matches StreamEvent::Chunk(bytes) ==> final(registry).view() == old(registry).view() && (
            r matches StreamStep::Tokens(t) && t.deep_view() == decode(
                Seq::empty(),
                old(self).partial_line(),
                bytes@,
            ).0 && final(self).partial_line() == decode(
                Seq::empty(),
                old(self).partial_line(),
                bytes@,
            ).1 && final(self).text() == old(self).text() + joined(t.deep_view())),
            event is SetupFailed ==> r is FallBack && final(registry).view() == old(registry).view(),
            event is Ended || event is Cancelled || (event is Failed && !old(self).for_chat())
                ==> final(registry).view() == released(old(registry).view(), old(self).run_id()),
            event is Ended ==> (r matches StreamStep::Finished(res) && result_view(res) == Ok::<
                Seq<char>,
                Seq<char>,
            >(if old(self).for_chat() { trimmed(old(self).text()) } else { old(self).text() })),
            event is Cancelled ==> (r matches StreamStep::Finished(res) && result_view(res)
                == Err::<Seq<char>, Seq<char>>(cancelled_message())),
            event matches StreamEvent::Failed(e) ==> if old(self).for_chat() {
                r is FallBack && final(registry).view() == old(registry).view()
            } else {
                r matches StreamStep::Finished(res) && result_view(res) == Err::<
                    Seq<char>,
                    Seq<char>,
                >("Stream error: "@ + e@)
            },
    {
        match event {
            StreamEvent::SetupFailed => StreamStep::FallBack,
            StreamEvent::Chunk(bytes) => StreamStep::Tokens(self.decoder.feed(bytes.as_slice())),
            StreamEvent::Failed(e) => {
                if self.for_chat {
                    StreamStep::FallBack
                } else {
                    release_run(registry, &self.run_id);
                    let mut m = String::from_str("Stream error: ");
                    m.append(e.as_str());
                    StreamStep::Finished(Err(m))
                }
            },
            StreamEvent::Ended => {
                release_run(registry, &self.run_id);
                let text = self.decoder.text();
                if self.for_chat {
                    StreamStep::Finished(Ok(trim(text.as_str())))
                } else {
                    StreamStep::Finished(Ok(text))
                }
            },
            StreamEvent::Cancelled => {
                release_run(registry, &self.run_id);
                StreamStep::Finished(Err(cancelled_error()))
            },
        }
    }

    /// Ends a run that was answered without streaming: the run leaves the
    /// registry and `result` is its outcome.
    pub fn finish<S>(&mut self, result: Result<String, String>, registry: &mut CancelRegistry<S>) -> (r:
        Result<String, String>)
        requires
            old(registry).wf(),
        ensures
            final(registry).wf(),
            r == result,
            final(registry).view() == released(old(registry).view(), old(self).run_id()),
    {
        release_run(registry, &self.run_id);
        result
    }
}

} // verus!
