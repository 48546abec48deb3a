//! Reading the state from plain text: one workspace on each line.

use vstd::prelude::*;
use vstd::string::*;
use crate::glazewm::order::{number_of_name, NameNumber};
use crate::glazewm::shape::{index_from, index_of_number, single_monitor, single_monitor_state};
use crate::state::{workspace_views, State, StateView, Workspace, WorkspaceView};
use crate::text::{trim, trimmed, whole_number};

verus! {

/// The line itself where it holds more than white space.
pub open spec fn kept_line(line: Seq<char>) -> Seq<Seq<char>> {
    if line.len() == 0 {
        Seq::empty()
    } else {
        seq![line]
    }
}

/// The lines of `s` from `start` on, read up to `pos`: each without the
/// white space around it, and without those that hold nothing else.
pub open spec fn lines_from(s: Seq<char>, start: int, pos: int) -> Seq<Seq<char>>
    decreases s.len() - pos,
{
    if start < 0 || pos < start || pos > s.len() {
        Seq::empty()
    } else if pos == s.len() {
        kept_line(trimmed(s.subrange(start, pos)))
    } else if s[pos] == '\n' {
        kept_line(trimmed(s.subrange(start, pos))) + lines_from(s, pos + 1, pos + 1)
    } else {
        lines_from(s, start, pos + 1)
    }
}

/// The lines of a text that hold more than white space, each without the
/// white space around it.
pub open spec fn plain_lines(s: Seq<char>) -> Seq<Seq<char>> {
    lines_from(s, 0, 0)
}

/// Whether a line starts with a mark of focus, `*` or `>`.
pub open spec fn is_marked(line: Seq<char>) -> bool {
    line.len() > 0 && (line[0] == '*' || line[0] == '>')
}

/// The name on a line: what follows the mark of focus, without the white
/// space around it, or the whole line.
pub open spec fn plain_name(line: Seq<char>) -> Seq<char> {
    if is_marked(line) {
        trimmed(line.skip(1))
    } else {
        line
    }
}

/// The position of the last marked line among the first `n`.
pub open spec fn last_marked(lines: Seq<Seq<char>>, n: int) -> Option<usize>
    decreases n,
{
    if n <= 0 || n > lines.len() {
        None
    } else if is_marked(lines[n - 1]) {
        Some((n - 1) as usize)
    } else {
        last_marked(lines, n - 1)
    }
}

/// The workspace on the line at position `idx`. It has the focus where it
/// is the last marked one, or the first one where no line is marked.
pub open spec fn plain_workspace(line: Seq<char>, idx: usize, focus: Option<usize>) -> WorkspaceView {
    WorkspaceView {
        name: plain_name(line),
        index: index_of_number(whole_number(plain_name(line)), idx),
        focused: match focus {
            Some(f) => f == idx,
            None => idx == 0,
        },
        is_empty: false,
    }
}

/// The workspaces that the lines name.
pub open spec fn plain_workspaces(lines: Seq<Seq<char>>) -> Seq<WorkspaceView> {
    Seq::new(
        lines.len(),
        |i: int| plain_workspace(lines[i], i as usize, last_marked(lines, lines.len() as int)),
    )
}

/// The snapshot that a text describes: one monitor with one workspace for
/// each line; `None` where no line holds more than white space.
pub open spec fn plain_state(text: Seq<char>) -> Option<StateView> {
    let lines = plain_lines(text);
    if lines.len() == 0 {
        None
    } else {
        Some(single_monitor(plain_workspaces(lines)))
    }
}

/// The views of `names`, in order.
pub open spec fn name_views(names: Seq<String>) -> Seq<Seq<char>> {
    Seq::new(names.len(), |i: int| names[i]@)
}

/// The name on a line and whether the line is marked.
fn read_line(line: &str) -> (r: (String, bool))
    requires
        line@.len() > 0,
    ensures
        r.0@ == plain_name(line@),
        r.1 == is_marked(line@),
{
    let first = line.get_char(0);
    if first == '*' || first == '>' {
        let n: usize = line.unicode_len();
        let rest = line.substring_char(1, n);
        assert(rest@ =~= line@.skip(1));
        (String::from_str(trim(rest)), true)
    } else {
        (String::from_str(line), false)
    }
}

/// What `finish_line` is to keep up to date: the names and the focus of the
/// lines read so far.
struct Collected {
    names: Vec<String>,
    focus: Option<usize>,
}

fn finish_line(text: &str, start: usize, end: usize, collected: &mut Collected, Ghost(lines): Ghost<Seq<Seq<char>>>) -> (more: Ghost<Seq<Seq<char>>>)
    requires
        start <= end <= text@.len(),
        old(collected).names@.len() == lines.len(),
        forall|k: int| 0 <= k < lines.len() ==> old(collected).names@[k]@ == plain_name(lines[k]),
        old(collected).focus == last_marked(lines, lines.len() as int),
    ensures
        more@ == lines + kept_line(trimmed(text@.subrange(start as int, end as int))),
        final(collected).names@.len() == more@.len(),
        forall|k: int| 0 <= k < more@.len() ==> final(collected).names@[k]@ == plain_name(more@[k]),
        final(collected).focus == last_marked(more@, more@.len() as int),
{
    let line = trim(text.substring_char(start, end));
    let ghost more = lines + kept_line(line@);
    if line.unicode_len() > 0 {
        let (name, marked) = read_line(line);
        if marked {
            collected.focus = Some(collected.names.len());
        }
        collected.names.push(name);
        proof {
            assert(more =~= lines.push(line@));
            lemma_last_marked_push(lines, line@);
        }
    } else {
        assert(more =~= lines);
    }
    Ghost(more)
}

proof fn lemma_last_marked_push(lines: Seq<Seq<char>>, line: Seq<char>)
    ensures
        last_marked(lines.push(line), lines.len() as int + 1) == if is_marked(line) {
            Some(lines.len() as usize)
        } else {
            last_marked(lines, lines.len() as int)
        },
{
    lemma_last_marked_prefix(lines, lines.push(line), lines.len() as int);
}

proof fn lemma_last_marked_prefix(a: Seq<Seq<char>>, b: Seq<Seq<char>>, n: int)
    requires
        0 <= n <= a.len() <= b.len(),
        forall|k: int| 0 <= k < n ==> a[k] == b[k],
    ensures
        last_marked(a, n) == last_marked(b, n),
    decreases n,
{
    if n > 0 {
        lemma_last_marked_prefix(a, b, n - 1);
    }
}

/// Reads the snapshot from plain text: each line that holds more than white
/// space names one workspace, and a `*` or `>` before the name marks the one
/// that has the focus.
pub fn parse_plain_workspaces(text: &str) -> (r: Option<State>)
    ensures
        match r {
            Some(state) => plain_state(text@) == Some(state@),
            None => plain_state(text@) is None,
        },
{
    let len: usize = text.unicode_len();
    let mut collected = Collected { names: Vec::new(), focus: None };
    let ghost mut lines: Seq<Seq<char>> = Seq::empty();
    let mut start: usize = 0;
    let mut pos: usize = 0;
    while pos < len
        invariant
            0 <= start <= pos <= len,
            len == text@.len(),
            plain_lines(text@) == lines + lines_from(text@, start as int, pos as int),
            collected.names@.len() == lines.len(),
            forall|k: int| 0 <= k < lines.len() ==> collected.names@[k]@ == plain_name(lines[k]),
            collected.focus == last_marked(lines, lines.len() as int),
        decreases len - pos,
    {
        if text.get_char(pos) == '\n' {
            let more = finish_line(text, start, pos, &mut collected, Ghost(lines));
            proof {
                assert(lines + (kept_line(trimmed(text@.subrange(start as int, pos as int)))
                    + lines_from(text@, pos + 1, pos + 1)) =~= more@ + lines_from(
                    text@,
                    pos + 1,
                    pos + 1,
                ));
                lines = more@;
            }
            start = pos + 1;
        }
        pos = pos + 1;
    }
    let more = finish_line(text, start, len, &mut collected, Ghost(lines));
    proof {
        lines = more@;
        assert(plain_lines(text@) == lines);
    }
    let n: usize = collected.names.len();
    if n == 0 {
        return None;
    }
    let focus = collected.focus;
    let mut workspaces: Vec<Workspace> = Vec::new();
    let mut idx: usize = 0;
    while idx < n
        invariant
            0 <= idx <= n,
            n == lines.len(),
            collected.names@.len() == n,
            forall|k: int| 0 <= k < n ==> collected.names@[k]@ == plain_name(lines[k]),
            focus == last_marked(lines, n as int),
            workspaces@.len() == idx,
            forall|k: int|
                0 <= k < idx ==> workspaces@[k]@ == plain_workspace(lines[k], k as usize, focus),
        decreases n - idx,
    {
        let name = collected.names[idx].clone();
        let index = index_from(number_of_name(NameNumber::Whole, name.as_str()), idx);
        let focused = match focus {
            Some(f) => f == idx,
            None => idx == 0,
        };
        workspaces.push(Workspace { name, index, focused, is_empty: false });
        idx = idx + 1;
    }
    assert(workspace_views(workspaces@) =~= plain_workspaces(lines));
    Some(single_monitor_state(workspaces))
}

} // verus!
