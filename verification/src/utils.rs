use crate::text::{lemma_split_sep_peel, split_sep, str_eq, str_starts_with, trim_spec, trim_str};
use vstd::prelude::*;

verus! {

/// A key press at the confirmation gate, reduced to the three things the
/// gate tells apart.
#[derive(Clone, Copy, PartialEq, Eq, Structural, Debug)]
pub enum KeyPress {
    /// The Enter key.
    Enter,
    /// The interrupt combination, Control-C.
    CtrlC,
    /// Any other key.
    Other,
}

/// What the confirmation gate does with one key press.
#[derive(Clone, Copy, PartialEq, Eq, Structural, Debug)]
pub enum GateStep {
    /// Enter confirms the command.
    Accept,
    /// The interrupt declines it.
    Abort,
    /// Anything else is ignored; the next key is awaited.
    KeepWaiting,
}

/// The confirmation gate's decision for one key press: Enter accepts, the
/// interrupt aborts, anything else leaves it waiting.
pub fn gate_step(key: KeyPress) -> (r: GateStep)
    ensures
        key is Enter ==> r is Accept,
        key is CtrlC ==> r is Abort,
        key is Other ==> r is KeepWaiting,
{
    match key {
        KeyPress::Enter => GateStep::Accept,
        KeyPress::CtrlC => GateStep::Abort,
        KeyPress::Other => GateStep::KeepWaiting,
    }
}

/// What the read-eval loop does with one piece of input.
pub enum ReplStep {
    /// End of input, or the literal command `exit`: stop reading.
    Quit,
    /// Blank input: ignore it and prompt again.
    Ignore,
    /// Anything else: run it as a prompt, as typed.
    Run(String),
}

/// The read-eval loop's decision for one line of input: end-of-input and
/// the literal command `exit` quit, blank lines are ignored and prompted
/// again, anything else runs as a prompt.
pub fn repl_step(input: Option<String>) -> (r: ReplStep)
    ensures
        input is None ==> r is Quit,
        input matches Some(line) ==> {
            if trim_spec(line@).len() == 0 {
                r is Ignore
            } else if trim_spec(line@) == "exit"@ {
                r is Quit
            } else {
                r matches ReplStep::Run(prompt) && prompt@ == line@
            }
        },
{
    match input {
        None => ReplStep::Quit,
        Some(line) => {
            let t = trim_str(line.as_str());
            if t.unicode_len() == 0 {
                ReplStep::Ignore
            } else if str_eq(t, "exit") {
                ReplStep::Quit
            } else {
                ReplStep::Run(line)
            }
        },
    }
}

/// Whether the welcome banner is shown: only for an interactive loop on a
/// real terminal.
pub fn should_print_welcome(repl: bool, stdin_tty: bool) -> (r: bool)
    ensures
        r == (repl && stdin_tty),
{
    repl && stdin_tty
}

/// Whether the running user calls for the root warning.
pub fn is_root_user(user: &str) -> (r: bool)
    ensures
        r == (user@ == "root"@),
{
    str_eq(user, "root")
}

/// Home shortening: a working directory under the home directory starts
/// with `~` in its place.
pub open spec fn tilde_path(cwd: Seq<char>, home: Seq<char>) -> Seq<char> {
    if home.is_prefix_of(cwd) {
        "~"@ + cwd.skip(home.len() as int)
    } else {
        cwd
    }
}

/// Drops the segments that name no step: empty ones and bare `.` ones.
pub open spec fn keep_segments(raw: Seq<Seq<char>>) -> Seq<Seq<char>>
    decreases raw.len(),
{
    if raw.len() == 0 {
        Seq::empty()
    } else {
        let rest = keep_segments(raw.drop_last());
        if raw.last().len() > 0 && raw.last() != "."@ {
            rest.push(raw.last())
        } else {
            rest
        }
    }
}

pub proof fn lemma_keep_segments_wf(raw: Seq<Seq<char>>)
    ensures
        forall|k: int|
            0 <= k < keep_segments(raw).len() ==> (#[trigger] keep_segments(raw)[k]).len() > 0,
    decreases raw.len(),
{
    if raw.len() > 0 {
        lemma_keep_segments_wf(raw.drop_last());
        let rest = keep_segments(raw.drop_last());
        if raw.last().len() > 0 && raw.last() != "."@ {
            assert forall|k: int|
                0 <= k < keep_segments(raw).len() implies (#[trigger] keep_segments(raw)[k]).len()
                > 0 by {
                if k < rest.len() {
                    assert(keep_segments(raw)[k] == rest[k]);
                } else {
                    assert(keep_segments(raw)[k] == raw.last());
                }
            }
        } else {
            assert(keep_segments(raw) == rest);
        }
    }
}

/// The segments of a path: what stands between its slashes, empty and `.`
/// segments dropped.
pub open spec fn path_segments(p: Seq<char>) -> Seq<Seq<char>> {
    keep_segments(split_sep(p, '/'))
}

/// All segments but the last shortened to their first character.
pub open spec fn short_segments(segs: Seq<Seq<char>>) -> Seq<Seq<char>> {
    Seq::new(
        segs.len(),
        |i: int|
            if i == segs.len() - 1 {
                segs[i]
            } else {
                seq![segs[i][0]]
            },
    )
}

/// Segments joined back together by slashes.
pub open spec fn join_slash(segs: Seq<Seq<char>>) -> Seq<char>
    decreases segs.len(),
{
    if segs.len() == 0 {
        Seq::empty()
    } else if segs.len() == 1 {
        segs[0]
    } else {
        join_slash(segs.drop_last()) + "/"@ + segs.last()
    }
}

/// The shortened working directory the prompt shows: the home directory
/// becomes `~`, every ancestor segment shrinks to its first character, the
/// last keeps its full name, and a path not under home keeps its leading
/// slash.
pub open spec fn cwd_short_form_spec(cwd: Seq<char>, home: Seq<char>) -> Seq<char> {
    let joined = join_slash(short_segments(path_segments(tilde_path(cwd, home))));
    if joined.len() > 0 && joined[0] == '~' {
        joined
    } else {
        "/"@ + joined
    }
}

/// Renders the shortened working directory, as `cwd_short_form_spec` says.
/// The caller supplies the current and home directories; the library does
/// the shortening.
pub fn get_cwd_short_form(cwd: &str, home_dir: &str) -> (r: String)
    ensures
        r@ == cwd_short_form_spec(cwd@, home_dir@),
{
    let t: String = if str_starts_with(cwd, home_dir) {
        let hn = home_dir.unicode_len();
        let cn = cwd.unicode_len();
        let shortened = String::from_str("~").concat(cwd.substring_char(hn, cn));
        proof {
            assert(cwd@.skip(home_dir@.len() as int) =~= cwd@.subrange(
                home_dir@.len() as int,
                cwd@.len() as int,
            ));
        }
        shortened
    } else {
        String::from_str(cwd)
    };
    proof {
        assert(t@ == tilde_path(cwd@, home_dir@));
    }
    let ts = t.as_str();
    let n = ts.unicode_len();
    let mut segs: Vec<String> = Vec::new();
    let ghost mut raw: Seq<Seq<char>> = Seq::empty();
    let mut start: usize = 0;
    let mut i: usize = 0;
    proof {
        assert(ts@.subrange(0, n as int) =~= ts@);
        assert(raw + split_sep(ts@, '/') =~= split_sep(ts@, '/'));
        assert(segs.deep_view() =~= keep_segments(raw));
    }
    while i < n
        invariant
            n == ts@.len(),
            start <= i <= n,
            forall|j: int| start <= j < i ==> ts@[j] != '/',
            split_sep(ts@, '/') == raw + split_sep(ts@.subrange(start as int, n as int), '/'),
            segs.deep_view() == keep_segments(raw),
        decreases n - i,
    {
        if ts.get_char(i) == '/' {
            let seg = ts.substring_char(start, i);
            let ghost raw0 = raw;
            let ghost sv0 = segs.deep_view();
            if seg.unicode_len() > 0 && !str_eq(seg, ".") {
                segs.push(String::from_str(seg));
            }
            proof {
                let suffix = ts@.subrange(start as int, n as int);
                lemma_split_sep_peel(suffix, '/', i - start);
                let line = ts@.subrange(start as int, i as int);
                assert(suffix.subrange(0, i - start) =~= line);
                assert(suffix.subrange(i - start + 1, suffix.len() as int) =~= ts@.subrange(
                    i + 1,
                    n as int,
                ));
                raw = raw0 + seq![line];
                assert((raw0 + seq![line]) + split_sep(ts@.subrange(i + 1, n as int), '/') =~= raw0
                    + (seq![line] + split_sep(ts@.subrange(i + 1, n as int), '/')));
                assert(raw.drop_last() =~= raw0);
                assert(raw.last() == line);
                if line.len() > 0 && line != "."@ {
                    assert(segs.deep_view() =~= sv0.push(line));
                    assert(keep_segments(raw) == keep_segments(raw0).push(line));
                } else {
                    assert(segs.deep_view() == sv0);
                    assert(keep_segments(raw) == keep_segments(raw0));
                }
            }
            start = i + 1;
        }
        i = i + 1;
    }
    let seg = ts.substring_char(start, n);
    let ghost raw0 = raw;
    let ghost sv0 = segs.deep_view();
    if seg.unicode_len() > 0 && !str_eq(seg, ".") {
        segs.push(String::from_str(seg));
    }
    proof {
        let suffix = ts@.subrange(start as int, n as int);
        lemma_split_sep_peel(suffix, '/', suffix.len() as int);
        raw = raw0 + seq![suffix];
        assert(split_sep(ts@, '/') =~= raw);
        assert(raw.drop_last() =~= raw0);
        assert(raw.last() == suffix);
        if suffix.len() > 0 && suffix != "."@ {
            assert(segs.deep_view() =~= sv0.push(suffix));
            assert(keep_segments(raw) == keep_segments(raw0).push(suffix));
        } else {
            assert(segs.deep_view() == sv0);
            assert(keep_segments(raw) == keep_segments(raw0));
        }
        assert(segs.deep_view() == path_segments(t@));
        lemma_keep_segments_wf(raw);
    }
    let ghost sv = segs.deep_view();
    let ghost shorts = short_segments(sv);
    let m = segs.len();
    let mut joined = String::new();
    let mut j: usize = 0;
    proof {
        assert(shorts.subrange(0, 0) =~= Seq::<Seq<char>>::empty());
    }
    while j < m
        invariant
            m == segs@.len(),
            j <= m,
            sv == segs.deep_view(),
            shorts == short_segments(sv),
            forall|k: int| 0 <= k < sv.len() ==> (#[trigger] sv[k]).len() > 0,
            joined@ == join_slash(shorts.subrange(0, j as int)),
        decreases m - j,
    {
        if j > 0 {
            joined.append("/");
        }
        proof {
            assert(sv[j as int] == segs@[j as int]@);
            assert(sv[j as int].len() > 0);
        }
        if j + 1 < m {
            let seg = segs[j].as_str();
            joined.append(seg.substring_char(0, 1));
            proof {
                assert(seg@.subrange(0, 1) =~= seq![sv[j as int][0]]);
            }
        } else {
            joined.append(segs[j].as_str());
        }
        proof {
            let prefix = shorts.subrange(0, j + 1);
            assert(prefix.drop_last() =~= shorts.subrange(0, j as int));
            assert(prefix.last() == shorts[j as int]);
        }
        j = j + 1;
    }
    proof {
        assert(shorts.subrange(0, m as int) =~= shorts);
    }
    if joined.as_str().unicode_len() > 0 && joined.as_str().get_char(0) == '~' {
        joined
    } else {
        String::from_str("/").concat(joined.as_str())
    }
}

} // verus!
