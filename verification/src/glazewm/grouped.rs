//! Reading the state from a document whose workspaces name the monitor that
//! they belong to.

use vstd::prelude::*;
use vstd::string::*;
use crate::glazewm::order::{number_of_name, sort_workspaces, stable_sorted, NameNumber};
use crate::glazewm::shape::{
    first, first_of, flag, flag_of, focus_of_list, get_array, get_nested_array, index_from,
    index_of_number, item_name, member_array, name_of_item, nested_array, top_focus,
};
use crate::json::{text_json, views_of, Json, JsonValue};
use crate::state::{
    monitor_views, workspace_views, Monitor, MonitorView, Rect, State, StateView, Workspace,
    WorkspaceView,
};
use crate::text::{
    decimal, lemma_lex_lt_asymmetric, lemma_lex_lt_total, lemma_lex_lt_transitive, lex_lt,
    push_decimal, str_eq, str_lt, whole_number,
};

verus! {

/// The list of workspaces of a document: the array `workspaces` of the
/// member `data`, else the array `workspaces`, else the document itself where
/// it is an array, else nothing.
pub open spec fn grouped_items(v: JsonValue) -> Seq<JsonValue> {
    match nested_array(v, "data"@, "workspaces"@) {
        Some(ws) => ws,
        None => match member_array(v, "workspaces"@) {
            Some(ws) => ws,
            None => match v.as_array() {
                Some(items) => items,
                None => Seq::empty(),
            },
        },
    }
}

/// Whether the workspace `w` at position `idx` has the focus: what the first
/// of its members `focused`, `isActive` and `hasFocus` says where that is a
/// boolean, else whether the document names `idx` for the list.
pub open spec fn grouped_focused(w: JsonValue, idx: usize, top: Option<u64>) -> bool {
    flag_of(
        first_of(first_of(w.get("focused"@), w.get("isActive"@)), w.get("hasFocus"@)),
        top == Some(idx as u64),
    )
}

/// The monitor that the workspace `w` names as its parent, or the default
/// monitor.
pub open spec fn parent_of(w: JsonValue) -> Seq<char> {
    match w.get("parentId"@) {
        Some(p) => match p.as_str() {
            Some(s) => s,
            None => "glazewm-default"@,
        },
        None => "glazewm-default"@,
    }
}

/// The workspace that the item `w` at position `idx` of the list describes.
pub open spec fn grouped_workspace(w: JsonValue, idx: usize, top: Option<u64>) -> WorkspaceView {
    WorkspaceView {
        name: item_name(w, idx),
        index: index_of_number(whole_number(item_name(w, idx)), idx),
        focused: grouped_focused(w, idx, top),
        is_empty: false,
    }
}

/// The workspaces of one parent, in the order of the list.
pub struct GroupView {
    pub parent: Seq<char>,
    pub workspaces: Seq<WorkspaceView>,
}

/// The place of `parent` among `groups`: the first place at or after `from`
/// whose parent does not come before `parent` in the order of a dictionary.
pub open spec fn group_position(groups: Seq<GroupView>, parent: Seq<char>, from: int) -> int
    decreases groups.len() - from,
{
    if from < 0 || from >= groups.len() || !lex_lt(groups[from].parent, parent) {
        from
    } else {
        group_position(groups, parent, from + 1)
    }
}

/// `groups` with `w` added to the group of `parent`: at the end of that
/// group, or as a new group at the parent's place.
pub open spec fn with_entry(groups: Seq<GroupView>, parent: Seq<char>, w: WorkspaceView) -> Seq<
    GroupView,
> {
    let p = group_position(groups, parent, 0);
    if p < groups.len() && groups[p].parent == parent {
        groups.update(p, GroupView { parent, workspaces: groups[p].workspaces.push(w) })
    } else {
        groups.insert(p, GroupView { parent, workspaces: seq![w] })
    }
}

/// The groups that the first `n` items of the list make, in the order of
/// their parents.
pub open spec fn groups_of(items: Seq<JsonValue>, top: Option<u64>, n: int) -> Seq<GroupView>
    decreases n,
{
    if n <= 0 || n > items.len() {
        Seq::empty()
    } else {
        with_entry(
            groups_of(items, top, n - 1),
            parent_of(items[n - 1]),
            grouped_workspace(items[n - 1], (n - 1) as usize, top),
        )
    }
}

/// The monitor that the group at position `i` makes: its workspaces in order
/// of the numbers that their names are, then of their names; each keeps the
/// index that its name gave it.
pub open spec fn grouped_monitor(g: GroupView, i: usize) -> MonitorView {
    MonitorView {
        name: "Monitor "@ + decimal((i + 1) as nat),
        index: i,
        id: "glazewm-"@ + g.parent,
        workspaces: stable_sorted(NameNumber::Whole, g.workspaces),
        rect: Rect { left: 0, top: 0, right: 0, bottom: 0 },
    }
}

/// The monitors that `groups` make.
pub open spec fn grouped_monitors(groups: Seq<GroupView>) -> Seq<MonitorView> {
    Seq::new(groups.len(), |i: int| grouped_monitor(groups[i], i as usize))
}

/// The snapshot that a document describes: one monitor for each parent that
/// its workspaces name; `None` where it lists no workspace.
pub open spec fn grouped_state(v: JsonValue) -> Option<StateView> {
    let items = grouped_items(v);
    if items.len() == 0 {
        None
    } else {
        Some(
            StateView {
                monitors: grouped_monitors(groups_of(items, top_focus(v), items.len() as int)),
            },
        )
    }
}

/// Whether the parents of `groups` stand in the strict order of a
/// dictionary, so that no two groups have the same parent.
pub open spec fn parents_ascend(groups: Seq<GroupView>) -> bool {
    forall|i: int, j: int|
        0 <= i < j < groups.len() ==> lex_lt(#[trigger] groups[i].parent, #[trigger] groups[j].parent)
}

proof fn lemma_group_position(groups: Seq<GroupView>, parent: Seq<char>, from: int)
    requires
        0 <= from <= groups.len(),
    ensures
        from <= group_position(groups, parent, from) <= groups.len(),
        forall|i: int|
            from <= i < group_position(groups, parent, from) ==> lex_lt(
                #[trigger] groups[i].parent,
                parent,
            ),
        group_position(groups, parent, from) < groups.len() ==> !lex_lt(
            groups[group_position(groups, parent, from)].parent,
            parent,
        ),
    decreases groups.len() - from,
{
    if from < groups.len() && lex_lt(groups[from].parent, parent) {
        lemma_group_position(groups, parent, from + 1);
    }
}

/// Adding a workspace to its group keeps the parents in their order.
proof fn lemma_with_entry_ascends(groups: Seq<GroupView>, parent: Seq<char>, w: WorkspaceView)
    requires
        parents_ascend(groups),
    ensures
        parents_ascend(with_entry(groups, parent, w)),
{
    let p = group_position(groups, parent, 0);
    lemma_group_position(groups, parent, 0);
    let after = with_entry(groups, parent, w);
    if p < groups.len() && groups[p].parent == parent {
        assert forall|i: int, j: int| 0 <= i < j < after.len() implies lex_lt(
            #[trigger] after[i].parent,
            #[trigger] after[j].parent,
        ) by {
            assert(after[i].parent == groups[i].parent);
            assert(after[j].parent == groups[j].parent);
        }
    } else {
        assert forall|i: int, j: int| 0 <= i < j < after.len() implies lex_lt(
            #[trigger] after[i].parent,
            #[trigger] after[j].parent,
        ) by {
            if j < p {
                assert(after[i] == groups[i] && after[j] == groups[j]);
            } else if j == p {
                assert(after[i] == groups[i]);
            } else if i == p {
                assert(after[j] == groups[j - 1]);
                if !lex_lt(parent, groups[p].parent) {
                    lemma_lex_lt_total(parent, groups[p].parent);
                }
                if j - 1 > p {
                    assert(lex_lt(groups[p].parent, groups[j - 1].parent));
                    lemma_lex_lt_transitive(parent, groups[p].parent, groups[j - 1].parent);
                }
            } else if i < p {
                assert(after[i] == groups[i] && after[j] == groups[j - 1]);
            } else {
                assert(after[i] == groups[i - 1] && after[j] == groups[j - 1]);
            }
        }
    }
}

/// The parents of the groups of a list stand in the strict order of a
/// dictionary.
pub proof fn lemma_groups_ascend(items: Seq<JsonValue>, top: Option<u64>, n: int)
    ensures
        parents_ascend(groups_of(items, top, n)),
    decreases n,
{
    if 0 < n <= items.len() {
        lemma_groups_ascend(items, top, n - 1);
        lemma_with_entry_ascends(
            groups_of(items, top, n - 1),
            parent_of(items[n - 1]),
            grouped_workspace(items[n - 1], (n - 1) as usize, top),
        );
    }
}

/// No two monitors of a snapshot that is read from a grouped document have
/// the same identity.
pub proof fn lemma_grouped_state_distinct_ids(v: JsonValue)
    requires
        grouped_state(v) is Some,
    ensures
        grouped_state(v).unwrap().distinct_ids(),
{
    let items = grouped_items(v);
    let groups = groups_of(items, top_focus(v), items.len() as int);
    lemma_groups_ascend(items, top_focus(v), items.len() as int);
    let state = grouped_state(v).unwrap();
    assert forall|i: int, j: int| 0 <= i < j < state.monitors.len() implies state.monitors[i].id
        != state.monitors[j].id by {
        assert(lex_lt(groups[i].parent, groups[j].parent));
        if groups[i].parent == groups[j].parent {
            lemma_lex_lt_asymmetric(groups[i].parent, groups[j].parent);
        }
        let prefix = "glazewm-"@;
        let a = prefix + groups[i].parent;
        let b = prefix + groups[j].parent;
        if a == b {
            assert(a.subrange(prefix.len() as int, a.len() as int) =~= groups[i].parent);
            assert(b.subrange(prefix.len() as int, b.len() as int) =~= groups[j].parent);
        }
    }
}

/// The workspaces of one parent.
struct Group {
    parent: String,
    workspaces: Vec<Workspace>,
}

impl View for Group {
    type V = GroupView;

    closed spec fn view(&self) -> GroupView {
        GroupView { parent: self.parent@, workspaces: workspace_views(self.workspaces@) }
    }
}

spec fn group_views(groups: Seq<Group>) -> Seq<GroupView> {
    Seq::new(groups.len(), |i: int| groups[i]@)
}

fn items_of(value: &Json) -> (r: Option<&Vec<Json>>)
    ensures
        match r {
            Some(items) => grouped_items(value@) == views_of(items@),
            None => grouped_items(value@) == Seq::<JsonValue>::empty(),
        },
{
    match get_nested_array(value, "data", "workspaces") {
        Some(ws) => Some(ws),
        None => match get_array(value, "workspaces") {
            Some(ws) => Some(ws),
            None => value.as_array(),
        },
    }
}

fn parent_from(w: &Json) -> (r: String)
    ensures
        r@ == parent_of(w@),
{
    match w.get("parentId") {
        Some(p) => match p.as_str() {
            Some(s) => String::from_str(s),
            None => String::from_str("glazewm-default"),
        },
        None => String::from_str("glazewm-default"),
    }
}

fn workspace_of_item(w: &Json, idx: usize, top: Option<u64>) -> (r: Workspace)
    ensures
        r@ == grouped_workspace(w@, idx, top),
{
    let name = name_of_item(w, idx);
    let named = first(first(w.get("focused"), w.get("isActive")), w.get("hasFocus"));
    let by_list = match top {
        Some(f) => f == idx as u64,
        None => false,
    };
    let focused = flag(named, by_list);
    let index = index_from(number_of_name(NameNumber::Whole, name.as_str()), idx);
    Workspace { name, index, focused, is_empty: false }
}

fn add_entry(groups: &mut Vec<Group>, parent: String, w: Workspace)
    ensures
        group_views(final(groups)@) == with_entry(group_views(old(groups)@), parent@, w@),
{
    let ghost before = group_views(groups@);
    let n: usize = groups.len();
    let mut p: usize = 0;
    while p < n && str_lt(groups[p].parent.as_str(), parent.as_str())
        invariant
            0 <= p <= n,
            n == groups@.len(),
            before == group_views(groups@),
            group_position(before, parent@, 0) == group_position(before, parent@, p as int),
        decreases n - p,
    {
        p = p + 1;
    }
    if p < n && str_eq(groups[p].parent.as_str(), parent.as_str()) {
        let mut group = groups.remove(p);
        group.workspaces.push(w);
        groups.insert(p, group);
        assert(group_views(groups@) =~= with_entry(before, parent@, w@)) by {
            assert(workspace_views(groups@[p as int].workspaces@) =~= before[p as int].workspaces.push(
                w@,
            ));
        }
    } else {
        let mut workspaces: Vec<Workspace> = Vec::new();
        workspaces.push(w);
        assert(workspace_views(workspaces@) =~= seq![w@]);
        groups.insert(p, Group { parent, workspaces });
        assert(group_views(groups@) =~= with_entry(before, parent@, w@));
    }
}

fn monitor_of_group(group: Group, i: usize) -> (r: Monitor)
    ensures
        r@ == grouped_monitor(group@, i),
{
    let mut name = String::from_str("Monitor ");
    push_decimal(&mut name, i as u128 + 1);
    let mut id = String::from_str("glazewm-");
    id.append(group.parent.as_str());
    Monitor {
        name,
        index: i,
        id,
        workspaces: sort_workspaces(NameNumber::Whole, group.workspaces),
        rect: Rect::default(),
    }
}

/// Reads the snapshot from a document whose workspaces name their monitors.
pub fn grouped_state_from(value: &Json) -> (r: Option<State>)
    ensures
        match r {
            Some(state) => grouped_state(value@) == Some(state@) && state@.distinct_ids(),
            None => grouped_state(value@) is None,
        },
{
    let items = match items_of(value) {
        Some(items) => items,
        None => {
            return None;
        },
    };
    let n: usize = items.len();
    if n == 0 {
        return None;
    }
    let top = focus_of_list(value);
    let mut groups: Vec<Group> = Vec::new();
    let mut idx: usize = 0;
    assert(group_views(groups@) =~= groups_of(views_of(items@), top, 0));
    while idx < n
        invariant
            0 <= idx <= n,
            n == items@.len(),
            group_views(groups@) == groups_of(views_of(items@), top, idx as int),
        decreases n - idx,
    {
        let w = &items[idx];
        let workspace = workspace_of_item(w, idx, top);
        add_entry(&mut groups, parent_from(w), workspace);
        idx = idx + 1;
    }
    let ghost all = group_views(groups@);
    let m: usize = groups.len();
    let mut reversed: Vec<Monitor> = Vec::new();
    let mut left: usize = m;
    while left > 0
        invariant
            0 <= left <= m,
            m == all.len(),
            groups@.len() == left,
            forall|i: int| 0 <= i < left ==> groups@[i]@ == all[i],
            reversed@.len() == m - left,
            forall|i: int|
                0 <= i < m - left ==> reversed@[i]@ == grouped_monitor(
                    all[m - 1 - i],
                    (m - 1 - i) as usize,
                ),
        decreases left,
    {
        let group = groups.pop().unwrap();
        left = left - 1;
        reversed.push(monitor_of_group(group, left));
    }
    let mut monitors: Vec<Monitor> = Vec::new();
    let mut i: usize = 0;
    while i < m
        invariant
            0 <= i <= m,
            m == all.len(),
            reversed@.len() == m - i,
            forall|j: int|
                0 <= j < m - i ==> reversed@[j]@ == grouped_monitor(
                    all[m - 1 - j],
                    (m - 1 - j) as usize,
                ),
            monitors@.len() == i,
            forall|j: int| 0 <= j < i ==> monitors@[j]@ == grouped_monitor(all[j], j as usize),
        decreases m - i,
    {
        let monitor = reversed.pop().unwrap();
        monitors.push(monitor);
        i = i + 1;
    }
    assert(monitor_views(monitors@) =~= grouped_monitors(all));
    proof {
        lemma_grouped_state_distinct_ids(value@);
    }
    Some(State { monitors })
}

/// Why a text gave no snapshot.
#[derive(Clone, Copy, Debug, PartialEq, Eq, Structural)]
pub enum ParseError {
    /// The text is no JSON document.
    Syntax,
    /// The text names no workspace.
    NoWorkspaces,
}

/// Reads the snapshot from a text that is a JSON document whose workspaces
/// name their monitors.
pub fn parse_state_json_grouped(text: &str) -> (r: Result<State, ParseError>)
    ensures
        match r {
            Ok(state) => text_json(text@) matches Some(j) && grouped_state(j) == Some(state@),
            Err(ParseError::Syntax) => text_json(text@) is None,
            Err(ParseError::NoWorkspaces) => text_json(text@) matches Some(j) && grouped_state(j)
                is None,
        },
{
    match Json::parse(text) {
        Ok(j) => match grouped_state_from(&j) {
            Some(state) => Ok(state),
            None => Err(ParseError::NoWorkspaces),
        },
        Err(_) => Err(ParseError::Syntax),
    }
}

} // verus!
