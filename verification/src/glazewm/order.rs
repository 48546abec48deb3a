//! The order in which the workspaces of GlazeWM are shown: by the number in
//! their names, then by name.

use vstd::prelude::*;
use vstd::string::*;
use crate::state::{workspace_views, Workspace, WorkspaceView};
use crate::text::{
    leading_i32, leading_number, lemma_lex_lt_negative_transitive, lex_lt, str_lt, whole_i32,
    whole_number,
};

verus! {

/// How the number of a workspace is read from its name.
#[derive(Clone, Copy, Debug, PartialEq, Eq, Structural)]
pub enum NameNumber {
    /// The digits that the name starts with.
    Leading,
    /// The whole name, which may carry a sign.
    Whole,
}

/// The number of a workspace of the given name.
pub open spec fn name_number(kind: NameNumber, name: Seq<char>) -> Option<i32> {
    match kind {
        NameNumber::Leading => leading_number(name),
        NameNumber::Whole => whole_number(name),
    }
}

/// Whether `a` has to stand before `b`: numbered workspaces stand before the
/// others and among themselves by their numbers; the others stand by their
/// names.
pub open spec fn comes_before(kind: NameNumber, a: WorkspaceView, b: WorkspaceView) -> bool {
    match (name_number(kind, a.name), name_number(kind, b.name)) {
        (Some(x), Some(y)) => x < y,
        (Some(_), None) => true,
        (None, Some(_)) => false,
        (None, None) => lex_lt(a.name, b.name),
    }
}

/// Where `w` goes into `sorted`: the first place at or after `from` whose
/// workspace does not have to stand before `w`.
pub open spec fn insert_position(
    kind: NameNumber,
    sorted: Seq<WorkspaceView>,
    w: WorkspaceView,
    from: int,
) -> int
    decreases sorted.len() - from,
{
    if from < 0 || from >= sorted.len() || !comes_before(kind, sorted[from], w) {
        from
    } else {
        insert_position(kind, sorted, w, from + 1)
    }
}

/// The workspaces of `ws` in order. Workspaces of which neither has to stand
/// before the other keep the order that they have in `ws`.
pub open spec fn stable_sorted(kind: NameNumber, ws: Seq<WorkspaceView>) -> Seq<WorkspaceView>
    decreases ws.len(),
{
    if ws.len() == 0 {
        ws
    } else {
        let rest = stable_sorted(kind, ws.skip(1));
        rest.insert(insert_position(kind, rest, ws[0], 0), ws[0])
    }
}

/// Whether no workspace of `ws` stands after one that it has to stand before.
pub open spec fn in_order(kind: NameNumber, ws: Seq<WorkspaceView>) -> bool {
    forall|i: int, j: int| 0 <= i < j < ws.len() ==> !comes_before(kind, ws[j], ws[i])
}

/// Where `a` need not stand after `b` and `b` need not stand after `c`, `a`
/// need not stand after `c`.
pub proof fn lemma_comes_before_negative_transitive(
    kind: NameNumber,
    a: WorkspaceView,
    b: WorkspaceView,
    c: WorkspaceView,
)
    requires
        !comes_before(kind, b, a),
        !comes_before(kind, c, b),
    ensures
        !comes_before(kind, c, a),
{
    if name_number(kind, a.name) is None && name_number(kind, b.name) is None && name_number(
        kind,
        c.name,
    ) is None {
        lemma_lex_lt_negative_transitive(a.name, b.name, c.name);
    }
}

/// `comes_before` never holds in both directions, and not of a workspace and
/// itself.
pub proof fn lemma_comes_before_asymmetric(kind: NameNumber, a: WorkspaceView, b: WorkspaceView)
    requires
        comes_before(kind, a, b),
    ensures
        !comes_before(kind, b, a),
{
    if name_number(kind, a.name) is None && name_number(kind, b.name) is None {
        crate::text::lemma_lex_lt_asymmetric(a.name, b.name);
    }
}

proof fn lemma_insert_position(kind: NameNumber, sorted: Seq<WorkspaceView>, w: WorkspaceView, from: int)
    requires
        0 <= from <= sorted.len(),
    ensures
        from <= insert_position(kind, sorted, w, from) <= sorted.len(),
        forall|i: int|
            from <= i < insert_position(kind, sorted, w, from) ==> comes_before(
                kind,
                #[trigger] sorted[i],
                w,
            ),
        insert_position(kind, sorted, w, from) < sorted.len() ==> !comes_before(
            kind,
            sorted[insert_position(kind, sorted, w, from)],
            w,
        ),
    decreases sorted.len() - from,
{
    if from < sorted.len() && comes_before(kind, sorted[from], w) {
        lemma_insert_position(kind, sorted, w, from + 1);
    }
}

/// Putting a workspace at its place into workspaces that are in order leaves
/// them in order.
proof fn lemma_insert_keeps_order(kind: NameNumber, sorted: Seq<WorkspaceView>, w: WorkspaceView)
    requires
        in_order(kind, sorted),
    ensures
        in_order(kind, sorted.insert(insert_position(kind, sorted, w, 0), w)),
{
    let p = insert_position(kind, sorted, w, 0);
    lemma_insert_position(kind, sorted, w, 0);
    let out = sorted.insert(p, w);
    assert forall|i: int, j: int| 0 <= i < j < out.len() implies !comes_before(
        kind,
        out[j],
        out[i],
    ) by {
        if j < p {
            assert(out[i] == sorted[i] && out[j] == sorted[j]);
        } else if j == p {
            // out[i] stands before w
            assert(out[i] == sorted[i]);
            lemma_comes_before_asymmetric(kind, sorted[i], w);
        } else if i == p {
            // w against what follows: sorted[p] need not stand before w, and
            // out[j] need not stand before sorted[p]
            assert(out[j] == sorted[j - 1]);
            if j - 1 > p {
                lemma_comes_before_negative_transitive(kind, w, sorted[p], sorted[j - 1]);
            }
        } else if i < p {
            assert(out[i] == sorted[i] && out[j] == sorted[j - 1]);
        } else {
            assert(out[i] == sorted[i - 1] && out[j] == sorted[j - 1]);
        }
    }
}

/// What `stable_sorted` gives is in order.
pub proof fn lemma_stable_sorted_in_order(kind: NameNumber, ws: Seq<WorkspaceView>)
    ensures
        in_order(kind, stable_sorted(kind, ws)),
    decreases ws.len(),
{
    if ws.len() > 0 {
        lemma_stable_sorted_in_order(kind, ws.skip(1));
        lemma_insert_keeps_order(kind, stable_sorted(kind, ws.skip(1)), ws[0]);
    }
}

/// Workspaces that are in order stay as they are: the sort moves a workspace
/// only before one that it has to stand before.
pub proof fn lemma_stable_sorted_keeps_order(kind: NameNumber, ws: Seq<WorkspaceView>)
    requires
        in_order(kind, ws),
    ensures
        stable_sorted(kind, ws) == ws,
    decreases ws.len(),
{
    if ws.len() > 0 {
        let rest = ws.skip(1);
        assert forall|i: int, j: int| 0 <= i < j < rest.len() implies !comes_before(
            kind,
            rest[j],
            rest[i],
        ) by {
            assert(rest[i] == ws[i + 1] && rest[j] == ws[j + 1]);
        }
        lemma_stable_sorted_keeps_order(kind, rest);
        if rest.len() > 0 {
            assert(rest[0] == ws[1]);
            assert(!comes_before(kind, ws[1], ws[0]));
        }
        assert(insert_position(kind, rest, ws[0], 0) == 0);
        assert(rest.insert(0, ws[0]) =~= ws);
    }
}

/// What `stable_sorted` gives holds the workspaces of `ws`, each as often as
/// `ws` does.
pub proof fn lemma_stable_sorted_same_workspaces(kind: NameNumber, ws: Seq<WorkspaceView>)
    ensures
        stable_sorted(kind, ws).len() == ws.len(),
        stable_sorted(kind, ws).to_multiset() == ws.to_multiset(),
    decreases ws.len(),
{
    if ws.len() > 0 {
        let rest = stable_sorted(kind, ws.skip(1));
        lemma_stable_sorted_same_workspaces(kind, ws.skip(1));
        lemma_insert_position(kind, rest, ws[0], 0);
        let p = insert_position(kind, rest, ws[0], 0);
        vstd::seq_lib::to_multiset_insert(rest, p, ws[0]);
        vstd::seq_lib::to_multiset_insert(ws.skip(1), 0, ws[0]);
        assert(ws.skip(1).insert(0, ws[0]) =~= ws);
    }
}

/// The number of a workspace of the given name.
pub fn number_of_name(kind: NameNumber, name: &str) -> (r: Option<i32>)
    ensures
        r == name_number(kind, name@),
{
    match kind {
        NameNumber::Leading => leading_i32(name),
        NameNumber::Whole => whole_i32(name),
    }
}

/// Whether `a` has to stand before `b`.
pub fn stands_before(kind: NameNumber, a: &Workspace, b: &Workspace) -> (r: bool)
    ensures
        r == comes_before(kind, a@, b@),
{
    match (number_of_name(kind, a.name.as_str()), number_of_name(kind, b.name.as_str())) {
        (Some(x), Some(y)) => x < y,
        (Some(_), None) => true,
        (None, Some(_)) => false,
        (None, None) => str_lt(a.name.as_str(), b.name.as_str()),
    }
}

/// Puts workspaces in order. Workspaces of which neither has to stand before
/// the other keep their order.
pub fn sort_workspaces(kind: NameNumber, ws: Vec<Workspace>) -> (r: Vec<Workspace>)
    ensures
        workspace_views(r@) == stable_sorted(kind, workspace_views(ws@)),
        in_order(kind, workspace_views(r@)),
        workspace_views(r@).to_multiset() == workspace_views(ws@).to_multiset(),
{
    let ghost all = workspace_views(ws@);
    let mut rest = ws;
    let mut out: Vec<Workspace> = Vec::new();
    let n: usize = rest.len();
    let mut k: usize = n;
    assert(all.subrange(n as int, n as int) =~= Seq::empty());
    assert(workspace_views(out@) =~= Seq::empty());
    while k > 0
        invariant
            0 <= k <= n,
            n == all.len(),
            rest@.len() == k,
            forall|i: int| 0 <= i < k ==> rest@[i]@ == all[i],
            workspace_views(out@) == stable_sorted(kind, all.subrange(k as int, n as int)),
        decreases k,
    {
        let w = rest.pop().unwrap();
        k = k - 1;
        let ghost sorted = workspace_views(out@);
        let m: usize = out.len();
        let mut p: usize = 0;
        while p < m && stands_before(kind, &out[p], &w)
            invariant
                0 <= p <= m,
                m == out@.len(),
                sorted == workspace_views(out@),
                insert_position(kind, sorted, w@, 0) == insert_position(kind, sorted, w@, p as int),
            decreases m - p,
        {
            p = p + 1;
        }
        out.insert(p, w);
        proof {
            assert(all.subrange(k as int, n as int).skip(1) =~= all.subrange(k + 1, n as int));
            assert(all.subrange(k as int, n as int)[0] == w@);
            assert(workspace_views(out@) =~= sorted.insert(p as int, w@));
        }
    }
    proof {
        assert(all.subrange(0, n as int) =~= all);
        lemma_stable_sorted_in_order(kind, all);
        lemma_stable_sorted_same_workspaces(kind, all);
    }
    out
}

} // verus!
