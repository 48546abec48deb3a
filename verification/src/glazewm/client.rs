//! The commands of GlazeWM's command line, and the order in which they are
//! tried.

use vstd::prelude::*;
use vstd::string::*;
use crate::glazewm::plain::name_views;
use crate::text::{decimal, decimal_string, trim, trimmed};

verus! {

/// The number of commands that may print the state.
pub const CANDIDATES: usize = 6;

/// The arguments of the command at position `i`: those that ask for JSON
/// come first, then those that print plain text. A position after the last
/// counts as the last.
pub open spec fn candidate(i: int) -> Seq<Seq<char>> {
    if i == 0 {
        seq!["query"@, "workspaces"@, "--json"@]
    } else if i == 1 {
        seq!["query"@, "state"@, "--json"@]
    } else if i == 2 {
        seq!["status"@, "--json"@]
    } else if i == 3 {
        seq!["query"@, "workspaces"@]
    } else if i == 4 {
        seq!["query"@, "state"@]
    } else {
        seq!["status"@]
    }
}

/// The arguments of the command at position `i`.
pub fn candidate_args(i: usize) -> (r: Vec<String>)
    ensures
        name_views(r@) == candidate(i as int),
{
    let mut args: Vec<String> = Vec::new();
    if i == 0 || i == 1 || i == 3 || i == 4 {
        args.push(String::from_str("query"));
        if i == 0 || i == 3 {
            args.push(String::from_str("workspaces"));
        } else {
            args.push(String::from_str("state"));
        }
    } else {
        args.push(String::from_str("status"));
    }
    if i < 3 {
        args.push(String::from_str("--json"));
    }
    assert(name_views(args@) =~= candidate(i as int));
    args
}

/// One run of the command line.
#[derive(Clone, Copy, Debug, PartialEq, Eq, Structural)]
pub enum Attempt {
    /// The command that printed the state before, by its position.
    Remembered(usize),
    /// The command at this position of the list.
    Candidate(usize),
}

impl Attempt {
    /// The position of the command that the attempt runs.
    pub open spec fn position(self) -> usize {
        match self {
            Attempt::Remembered(i) => i,
            Attempt::Candidate(i) => i,
        }
    }

    /// The arguments of the command that the attempt runs.
    pub fn args(&self) -> (r: Vec<String>)
        ensures
            name_views(r@) == candidate(self.position() as int),
    {
        match self {
            Attempt::Remembered(i) => candidate_args(*i),
            Attempt::Candidate(i) => candidate_args(*i),
        }
    }
}

/// What a run of the command line gave.
#[derive(Debug)]
pub struct CommandOutput {
    /// Whether the command ended with success.
    pub success: bool,
    /// What it printed.
    pub stdout: String,
}

/// What to do next to get the state.
#[derive(Debug)]
pub enum QueryStep {
    /// Run this command.
    Run(Attempt),
    /// The state was printed: the text, and the position of the command to
    /// remember where none is remembered yet.
    Done { text: String, remember: Option<usize> },
    /// No command printed the state.
    Failed,
}

/// A step as a plain value.
pub enum QueryStepView {
    Run(Attempt),
    Done { text: Seq<char>, remember: Option<usize> },
    Failed,
}

impl View for QueryStep {
    type V = QueryStepView;

    open spec fn view(&self) -> QueryStepView {
        match self {
            QueryStep::Run(attempt) => QueryStepView::Run(*attempt),
            QueryStep::Done { text, remember } => QueryStepView::Done {
                text: text@,
                remember: *remember,
            },
            QueryStep::Failed => QueryStepView::Failed,
        }
    }
}

/// The text that a run printed, where it ran, ended with success and printed
/// more than white space.
pub open spec fn accepted_text(output: Option<CommandOutput>) -> Option<Seq<char>> {
    match output {
        Some(o) => if o.success && trimmed(o.stdout@).len() > 0 {
            Some(o.stdout@)
        } else {
            None
        },
        None => None,
    }
}

/// The first step: the remembered command where there is one, else the first
/// of the list.
pub open spec fn first_step(remembered: Option<usize>) -> QueryStepView {
    match remembered {
        Some(i) => if i < CANDIDATES {
            QueryStepView::Run(Attempt::Remembered(i))
        } else {
            QueryStepView::Run(Attempt::Candidate(0))
        },
        None => QueryStepView::Run(Attempt::Candidate(0)),
    }
}

/// The step after `attempt`: done where its text is accepted; else the list
/// from its start after the remembered command, the next of the list after
/// one of the list, and failure after the last.
pub open spec fn step_after(attempt: Attempt, output: Option<CommandOutput>) -> QueryStepView {
    match accepted_text(output) {
        Some(text) => QueryStepView::Done {
            text,
            remember: match attempt {
                Attempt::Remembered(_) => None,
                Attempt::Candidate(i) => Some(i),
            },
        },
        None => match attempt {
            Attempt::Remembered(_) => QueryStepView::Run(Attempt::Candidate(0)),
            Attempt::Candidate(i) => if i + 1 < CANDIDATES {
                QueryStepView::Run(Attempt::Candidate((i + 1) as usize))
            } else {
                QueryStepView::Failed
            },
        },
    }
}

/// The first step of a query for the state.
pub fn query_start(remembered: Option<usize>) -> (r: QueryStep)
    ensures
        r@ == first_step(remembered),
{
    match remembered {
        Some(i) => {
            if i < CANDIDATES {
                QueryStep::Run(Attempt::Remembered(i))
            } else {
                QueryStep::Run(Attempt::Candidate(0))
            }
        },
        None => QueryStep::Run(Attempt::Candidate(0)),
    }
}

/// The step after a run of `attempt` that gave `output`; `None` says that
/// the command could not be run.
pub fn query_next(attempt: Attempt, output: Option<CommandOutput>) -> (r: QueryStep)
    ensures
        r@ == step_after(attempt, output),
{
    let accepted = match &output {
        Some(o) => o.success && trim(o.stdout.as_str()).unicode_len() > 0,
        None => false,
    };
    if accepted {
        let text = output.unwrap().stdout;
        let remember = match attempt {
            Attempt::Remembered(_) => None,
            Attempt::Candidate(i) => Some(i),
        };
        QueryStep::Done { text, remember }
    } else {
        match attempt {
            Attempt::Remembered(_) => QueryStep::Run(Attempt::Candidate(0)),
            Attempt::Candidate(i) => {
                if i < CANDIDATES - 1 {
                    QueryStep::Run(Attempt::Candidate(i + 1))
                } else {
                    QueryStep::Failed
                }
            },
        }
    }
}

/// The command that stays remembered: the one that was, else the new one.
pub fn remembered_after(remembered: Option<usize>, remember: Option<usize>) -> (r: Option<usize>)
    ensures
        r == match remembered {
            Some(i) => Some(i),
            None => remember,
        },
{
    match remembered {
        Some(i) => Some(i),
        None => remember,
    }
}

/// The arguments that focus the workspace with the index `idx`: GlazeWM
/// counts its workspaces from one.
pub open spec fn focus_args(idx: usize) -> Seq<Seq<char>> {
    seq!["command"@, "focus"@, "--workspace"@, decimal((idx + 1) as nat)]
}

/// The arguments that focus the workspace with the index
/// `workspace_idx_zero_based`.
pub fn focus_workspace(workspace_idx_zero_based: usize) -> (r: Vec<String>)
    ensures
        name_views(r@) == focus_args(workspace_idx_zero_based),
{
    let mut args: Vec<String> = Vec::new();
    args.push(String::from_str("command"));
    args.push(String::from_str("focus"));
    args.push(String::from_str("--workspace"));
    args.push(decimal_string(workspace_idx_zero_based as u128 + 1));
    assert(name_views(args@) =~= focus_args(workspace_idx_zero_based));
    args
}

} // verus!
