//! Locating the server executable under a tool root. Whether a file exists,
//! and where the global tool root lies, is learned outside; the decisions
//! and the paths checked are made here.

use vstd::prelude::*;
use crate::launch::{join_with, joined_with};
use crate::text::{trim, trimmed};

verus! {

/// `s` with every backslash turned into a forward slash.
pub open spec fn forward_slashes(s: Seq<char>) -> Seq<char> {
    s.map_values(|c: char| if c == '\\' { '/' } else { c })
}

pub fn to_forward_slashes(s: &str) -> (r: String)
    ensures
        r@ == forward_slashes(s@),
{
    let n = s.unicode_len();
    let mut out = String::new();
    let mut i: usize = 0;
    while i < n
        invariant
            n == s@.len(),
            i <= n,
            out@ == forward_slashes(s@.subrange(0, i as int)),
        decreases n - i,
    {
        let ghost prev = out@;
        proof {
            reveal_strlit("/");
        }
        assert("/"@ =~= seq!['/']);
        if s.get_char(i) == '\\' {
            out.append("/");
        } else {
            out.append(s.substring_char(i, i + 1));
        }
        assert(out@ =~= prev + seq![if s@[i as int] == '\\' { '/' } else { s@[i as int] }]);
        assert(forward_slashes(s@.subrange(0, i + 1)) =~= forward_slashes(s@.subrange(0, i as int))
            + seq![if s@[i as int] == '\\' { '/' } else { s@[i as int] }]);
        i = i + 1;
    }
    assert(s@.subrange(0, n as int) =~= s@);
    out
}

/// `rel` under `root`, with one separator between them.
pub open spec fn path_under(root: Seq<char>, rel: Seq<char>) -> Seq<char> {
    if root.len() == 0 || root.last() == '/' {
        root + rel
    } else {
        root + "/"@ + rel
    }
}

pub fn join_path(root: &str, rel: &str) -> (r: String)
    ensures
        r@ == path_under(root@, rel@),
{
    let n = root.unicode_len();
    let mut out = String::from_str(root);
    if !(n == 0 || root.get_char(n - 1) == '/') {
        out.append("/");
    }
    out.append(rel);
    out
}

/// The executable's place under a tool root, checked first.
pub open spec fn primary_exe(windows: bool) -> Seq<char> {
    if windows {
        "runtime/llama/llama-server.exe"@
    } else {
        "runtime/llama/llama-server"@
    }
}

/// The executable's other accepted place.
pub open spec fn alternate_exe(windows: bool) -> Seq<char> {
    if windows {
        "runtime/llama/llama-server"@
    } else {
        "runtime/llama/llama-server.exe"@
    }
}

fn primary_exe_str(windows: bool) -> (r: &'static str)
    ensures
        r@ == primary_exe(windows),
{
    if windows {
        "runtime/llama/llama-server.exe"
    } else {
        "runtime/llama/llama-server"
    }
}

fn alternate_exe_str(windows: bool) -> (r: &'static str)
    ensures
        r@ == alternate_exe(windows),
{
    if windows {
        "runtime/llama/llama-server"
    } else {
        "runtime/llama/llama-server.exe"
    }
}

/// The places where a tool root may hold the executable, in the order they
/// are checked.
pub fn exe_candidates(root: &str, windows: bool) -> (r: Vec<String>)
    ensures
        r.deep_view() == seq![
            path_under(root@, primary_exe(windows)),
            path_under(root@, alternate_exe(windows)),
        ],
{
    let mut v: Vec<String> = Vec::new();
    v.push(join_path(root, primary_exe_str(windows)));
    v.push(join_path(root, alternate_exe_str(windows)));
    assert(v.deep_view() =~= seq![
        path_under(root@, primary_exe(windows)),
        path_under(root@, alternate_exe(windows)),
    ]);
    v
}

/// The tool root named by the user interface, if it names one.
pub open spec fn ui_root(ui: Option<Seq<char>>) -> Option<Seq<char>> {
    match ui {
        Some(t) => if trimmed(t).len() > 0 {
            Some(forward_slashes(trimmed(t)))
        } else {
            None
        },
        None => None,
    }
}

pub fn tool_root_from_ui(ui: Option<&str>) -> (r: Option<String>)
    ensures
        r.deep_view() == ui_root(
            match ui {
                Some(t) => Some(t@),
                None => None,
            },
        ),
{
    match ui {
        Some(t) => {
            let tr = trim(t);
            if tr.as_str().unicode_len() > 0 {
                Some(to_forward_slashes(tr.as_str()))
            } else {
                None
            }
        },
        None => None,
    }
}

/// The paths reported as checked for a root: the primary place, and on
/// Windows the alternate one too.
pub open spec fn checked_paths(root: Seq<char>, windows: bool) -> Seq<Seq<char>> {
    if windows {
        seq![path_under(root, primary_exe(windows)), path_under(root, alternate_exe(windows))]
    } else {
        seq![path_under(root, primary_exe(windows))]
    }
}

/// The outcome of resolving the tool root.
pub open spec fn tool_root_resolution(
    ui: Option<Seq<char>>,
    ui_has_exe: bool,
    global: Result<Seq<char>, Seq<char>>,
    global_has_exe: bool,
    windows: bool,
) -> Result<Seq<char>, Seq<char>> {
    let from_ui = ui_root(ui);
    let checked_ui = match from_ui {
        Some(r) => checked_paths(r, windows),
        None => Seq::empty(),
    };
    if from_ui is Some && ui_has_exe {
        Ok(from_ui->0)
    } else {
        match global {
            Err(e) => Err(
                "Global tool root unavailable: "@ + e + ". Paths checked: "@ + joined_with(
                    checked_ui,
                    "; "@,
                ),
            ),
            Ok(g) => if global_has_exe {
                Ok(g)
            } else {
                Err(
                    "llama-server not found. Checked: "@ + joined_with(
                        checked_ui + checked_paths(g, windows),
                        "; "@,
                    ),
                )
            },
        }
    }
}

fn push_checked(out: &mut Vec<String>, root: &str, windows: bool)
    ensures
        final(out).deep_view() == old(out).deep_view() + checked_paths(root@, windows),
{
    let ghost before = out.deep_view();
    out.push(join_path(root, primary_exe_str(windows)));
    if windows {
        out.push(join_path(root, alternate_exe_str(windows)));
    }
    assert(out.deep_view() =~= before + checked_paths(root@, windows));
}

/// Resolves the tool root: the one named by the user interface when the
/// executable is there (`ui_has_exe`, for the root `tool_root_from_ui`
/// gives), else the global one (`global`, with `global_has_exe`). A failure
/// lists every path checked.
pub fn resolve_tool_root(
    ui: Option<&str>,
    ui_has_exe: bool,
    global: Result<String, String>,
    global_has_exe: bool,
    windows: bool,
) -> (r: Result<String, String>)
    ensures
        match r {
            Ok(p) => tool_root_resolution(
                match ui {
                    Some(t) => Some(t@),
                    None => None,
                },
                ui_has_exe,
                match global {
                    Ok(g) => Ok(g@),
                    Err(e) => Err(e@),
                },
                global_has_exe,
                windows,
            ) == Ok::<Seq<char>, Seq<char>>(p@),
            Err(m) => tool_root_resolution(
                match ui {
                    Some(t) => Some(t@),
                    None => None,
                },
                ui_has_exe,
                match global {
                    Ok(g) => Ok(g@),
                    Err(e) => Err(e@),
                },
                global_has_exe,
                windows,
            ) == Err::<Seq<char>, Seq<char>>(m@),
        },
{
    let mut checked: Vec<String> = Vec::new();
    let from_ui = tool_root_from_ui(ui);
    match &from_ui {
        Some(root) => {
            if ui_has_exe {
                return Ok(root.clone());
            }
            push_checked(&mut checked, root.as_str(), windows);
        },
        None => {},
    }
    assert(checked.deep_view() =~= match from_ui.deep_view() {
        Some(r) => checked_paths(r, windows),
        None => Seq::empty(),
    });
    match global {
        Err(e) => {
            let mut m = String::from_str("Global tool root unavailable: ");
            m.append(e.as_str());
            m.append(". Paths checked: ");
            m.append(join_with(&checked, "; ").as_str());
            Err(m)
        },
        Ok(g) => {
            if global_has_exe {
                return Ok(g);
            }
            push_checked(&mut checked, g.as_str(), windows);
            let mut m = String::from_str("llama-server not found. Checked: ");
            m.append(join_with(&checked, "; ").as_str());
            Err(m)
        },
    }
}

/// The places where the server executable is looked for under a resolved
/// tool root, in order.
pub fn server_exe_candidates(root: &str) -> (r: Vec<String>)
    ensures
        r.deep_view() == seq![
            path_under(root@, "runtime/llama/llama-server.exe"@),
            path_under(root@, "runtime/llama/llama-server"@),
        ],
{
    exe_candidates(root, true)
}

/// The error when no executable is found under a resolved tool root.
pub fn exe_not_found_error(root: &str) -> (r: String)
    ensures
        r@
            == "Could not find runtime/llama/llama-server.exe or runtime/llama/llama-server under toolRoot. toolRoot="@
            + root@,
{
    let mut m = String::from_str(
        "Could not find runtime/llama/llama-server.exe or runtime/llama/llama-server under toolRoot. toolRoot=",
    );
    m.append(root);
    m
}

} // verus!
