//! Launching the server: its arguments, the bounded wait for readiness,
//! the settings that tune them, and the messages of failed starts.

use vstd::prelude::*;
use crate::text::{decimal, decimal_string, parse_unsigned, parsed_unsigned, trim, trimmed};

verus! {

/// The loopback address the server binds.
pub open spec fn server_host() -> Seq<char> {
    "127.0.0.1"@
}

/// The server's command line for `model` on `port`; a positive
/// `context_length` sets the context size.
pub open spec fn server_args_spec(model: Seq<char>, port: u16, context_length: i32) -> Seq<Seq<char>> {
    seq!["--model"@, model, "--host"@, server_host(), "--port"@, decimal(port as nat)] + if context_length
        > 0 {
        seq!["--ctx-size"@, decimal(context_length as nat)]
    } else {
        Seq::empty()
    }
}

/// Builds the server's command line.
pub fn server_args(model: &str, port: u16, context_length: i32) -> (r: Vec<String>)
    ensures
        r.deep_view() == server_args_spec(model@, port, context_length),
{
    let mut args: Vec<String> = Vec::new();
    args.push(String::from_str("--model"));
    args.push(String::from_str(model));
    args.push(String::from_str("--host"));
    args.push(String::from_str("127.0.0.1"));
    args.push(String::from_str("--port"));
    args.push(decimal_string(port as u64));
    if context_length > 0 {
        args.push(String::from_str("--ctx-size"));
        args.push(decimal_string(context_length as u64));
    }
    assert(args.deep_view() =~= server_args_spec(model@, port, context_length));
    args
}

/// The items with `sep` between each two.
pub open spec fn joined_with(items: Seq<Seq<char>>, sep: Seq<char>) -> Seq<char>
    decreases items.len(),
{
    if items.len() == 0 {
        Seq::empty()
    } else if items.len() == 1 {
        items[0]
    } else {
        joined_with(items.drop_last(), sep) + sep + items.last()
    }
}

/// Joins the items with `sep` between each two.
pub fn join_with(items: &Vec<String>, sep: &str) -> (r: String)
    ensures
        r@ == joined_with(items.deep_view(), sep@),
{
    let mut out = String::new();
    let mut i: usize = 0;
    while i < items.len()
        invariant
            i <= items@.len(),
            out@ == joined_with(items.deep_view().subrange(0, i as int), sep@),
        decreases items@.len() - i,
    {
        let ghost before = items.deep_view().subrange(0, i as int);
        let ghost after = items.deep_view().subrange(0, i + 1);
        assert(after.drop_last() =~= before);
        if i > 0 {
            out.append(sep);
        }
        out.append(items[i].as_str());
        i = i + 1;
    }
    assert(items.deep_view().subrange(0, i as int) =~= items.deep_view());
    out
}

/// How many characters of captured output a failure message keeps.
pub const LOG_EXCERPT_CHARS: usize = 2000;

/// The end of the captured output: its last characters, marked as cut when
/// anything was left out.
pub open spec fn log_excerpt(text: Seq<char>) -> Seq<char> {
    if text.len() > LOG_EXCERPT_CHARS {
        "..."@ + text.subrange(text.len() - LOG_EXCERPT_CHARS, text.len() as int)
    } else {
        text
    }
}

/// The message of a server that never became ready.
pub open spec fn readiness_timeout_message(
    seconds: u64,
    port: u16,
    model: Seq<char>,
    args: Seq<Seq<char>>,
    log: Seq<Seq<char>>,
) -> Seq<char> {
    let excerpt = log_excerpt(joined_with(log, "\n"@));
    "llama-server did not become ready within "@ + decimal(seconds as nat) + " seconds. port="@
        + decimal(port as nat) + " model_path="@ + model + " launch_args=["@ + joined_with(args, " "@)
        + "]"@ + if excerpt.len() == 0 {
        Seq::empty()
    } else {
        "\n\nLast llama-server output:\n"@ + excerpt
    }
}

/// Builds the message of a server that did not become ready within
/// `seconds`: its port, model, command line and the end of its output.
pub fn readiness_timeout_error(
    seconds: u64,
    port: u16,
    model: &str,
    args: &Vec<String>,
    log: &Vec<String>,
) -> (r: String)
    ensures
        r@ == readiness_timeout_message(seconds, port, model@, args.deep_view(), log.deep_view()),
{
    let output = join_with(log, "\n");
    let n = output.as_str().unicode_len();
    let excerpt = if n > LOG_EXCERPT_CHARS {
        let mut e = String::from_str("...");
        e.append(output.as_str().substring_char(n - LOG_EXCERPT_CHARS, n));
        e
    } else {
        output
    };
    let mut msg = String::from_str("llama-server did not become ready within ");
    msg.append(decimal_string(seconds).as_str());
    msg.append(" seconds. port=");
    msg.append(decimal_string(port as u64).as_str());
    msg.append(" model_path=");
    msg.append(model);
    msg.append(" launch_args=[");
    msg.append(join_with(args, " ").as_str());
    msg.append("]");
    if excerpt.as_str().unicode_len() > 0 {
        msg.append("\n\nLast llama-server output:\n");
        msg.append(excerpt.as_str());
    }
    assert(msg@ =~= readiness_timeout_message(seconds, port, model@, args.deep_view(), log.deep_view()));
    msg
}

/// What the readiness wait asks for next.
#[derive(PartialEq, Eq, Structural, Clone, Copy, Debug)]
pub enum ReadinessStep {
    /// Sleep one interval, probe the server, and report.
    Wait,
    Ready,
    TimedOut,
}

/// A wait of at most `limit` probes, one per interval.
pub struct ReadinessWait {
    probes: u64,
    limit: u64,
}

impl ReadinessWait {
    /// Probes reported so far.
    pub closed spec fn probes(&self) -> nat {
        self.probes as nat
    }

    pub closed spec fn limit(&self) -> nat {
        self.limit as nat
    }

    /// Starts a wait of at most `limit` probes; with no probe allowed it has
    /// timed out at once.
    pub fn new(limit: u64) -> (r: (ReadinessWait, ReadinessStep))
        ensures
            r.0.probes() == 0,
            r.0.limit() == limit,
            r.1 == (if limit == 0 { ReadinessStep::TimedOut } else { ReadinessStep::Wait }),
    {
        let step = if limit == 0 { ReadinessStep::TimedOut } else { ReadinessStep::Wait };
        (ReadinessWait { probes: 0, limit }, step)
    }

    /// Reports the outcome of the probe after a wait.
    pub fn report(&mut self, healthy: bool) -> (r: ReadinessStep)
        requires
            old(self).probes() < old(self).limit(),
        ensures
            final(self).probes() == old(self).probes() + 1,
            final(self).limit() == old(self).limit(),
            r == (if healthy {
                ReadinessStep::Ready
            } else if final(self).probes() < final(self).limit() {
                ReadinessStep::Wait
            } else {
                ReadinessStep::TimedOut
            }),
    {
        self.probes = self.probes + 1;
        if healthy {
            ReadinessStep::Ready
        } else if self.probes < self.limit {
            ReadinessStep::Wait
        } else {
            ReadinessStep::TimedOut
        }
    }
}

/// The trimmed model path, or the error for a blank one.
pub fn checked_model_path(raw: &str) -> (r: Result<String, String>)
    ensures
        r is Ok <==> trimmed(raw@).len() > 0,
        r matches Ok(p) ==> p@ == trimmed(raw@),
        r matches Err(e) ==> e@ == "GGUF model path is required."@,
{
    let p = trim(raw);
    if p.as_str().unicode_len() == 0 {
        Err(String::from_str("GGUF model path is required."))
    } else {
        Ok(p)
    }
}

/// The error for a model path that names no file.
pub fn model_not_found_error(path: &str) -> (r: String)
    ensures
        r@ == "Model file not found: "@ + path@,
{
    let mut m = String::from_str("Model file not found: ");
    m.append(path);
    m
}

/// The error for a server process that could not be spawned.
pub fn spawn_failed_error(cause: &str) -> (r: String)
    ensures
        r@ == "Failed to start llama-server: "@ + cause@,
{
    let mut m = String::from_str("Failed to start llama-server: ");
    m.append(cause);
    m
}

/// The error when neither the preferred port nor the scan range is free.
pub fn no_free_port_error() -> (r: String)
    ensures
        r@ == "No free port in 11435..11550."@,
{
    String::from_str("No free port in 11435..11550.")
}

/// The default readiness budget, in seconds.
pub const DEFAULT_READINESS_TIMEOUT_SECONDS: u64 = 180;

/// The default budget of a patch generation, in seconds.
pub const DEFAULT_PATCH_TIMEOUT_SECONDS: u64 = 240;

/// A setting given as text: the trimmed text read as a number, or
/// `default` when it is absent or not a number.
pub open spec fn setting_value(raw: Option<Seq<char>>, default: u64) -> u64 {
    match raw {
        Some(t) => match parsed_unsigned(trimmed(t), u64::MAX as nat) {
            Some(v) => v as u64,
            None => default,
        },
        None => default,
    }
}

fn setting(raw: Option<&str>, default: u64) -> (r: u64)
    ensures
        r == setting_value(
            match raw {
                Some(t) => Some(t@),
                None => None,
            },
            default,
        ),
{
    match raw {
        Some(t) => {
            let v = trim(t);
            match parse_unsigned(v.as_str(), u64::MAX) {
                Some(n) => n,
                None => default,
            }
        },
        None => default,
    }
}

/// The readiness budget in seconds, from its setting if given.
pub fn readiness_timeout_seconds(raw: Option<&str>) -> (r: u64)
    ensures
        r == setting_value(
            match raw {
                Some(t) => Some(t@),
                None => None,
            },
            DEFAULT_READINESS_TIMEOUT_SECONDS,
        ),
{
    setting(raw, DEFAULT_READINESS_TIMEOUT_SECONDS)
}

/// The patch-generation budget in seconds, from its setting if given.
pub fn patch_timeout_seconds(raw: Option<&str>) -> (r: u64)
    ensures
        r == setting_value(
            match raw {
                Some(t) => Some(t@),
                None => None,
            },
            DEFAULT_PATCH_TIMEOUT_SECONDS,
        ),
{
    setting(raw, DEFAULT_PATCH_TIMEOUT_SECONDS)
}

/// Settings the user interface reads.
pub struct AppConfig {
    pub patch_timeout_seconds: u64,
}

/// The configuration, from the patch-timeout setting if given.
pub fn get_app_config(patch_timeout_raw: Option<&str>) -> (r: AppConfig)
    ensures
        r.patch_timeout_seconds == setting_value(
            match patch_timeout_raw {
                Some(t) => Some(t@),
                None => None,
            },
            DEFAULT_PATCH_TIMEOUT_SECONDS,
        ),
{
    AppConfig { patch_timeout_seconds: patch_timeout_seconds(patch_timeout_raw) }
}

} // verus!
