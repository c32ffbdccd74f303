//! The decisions of a checklist run. The caller performs each action
//! (evaluates an expression, runs a command, asks a question) and hands back
//! what came of it; the run decides what comes next.

use vstd::prelude::*;
use vstd::string::*;

use crate::expr::{interpret, interpret_spec, outcome_view, EvalError, EvalErrorView, ScriptOutcome};
use crate::model::{lookup, CheckExpr, Checklist, ChecklistDocument, ChecklistView, ExprView};

verus! {

/// Where a run stands.
#[derive(PartialEq, Eq, Structural, Clone, Copy, Debug)]
pub enum Stage {
    /// The expression of the check at this index is being evaluated.
    Evaluating(usize),
    /// The command at this index is running.
    Automated(usize),
    /// The question at this index is being asked.
    Manual(usize),
    /// The run is over with this exit code.
    Finished(i32),
}

/// What came of the last action.
#[derive(PartialEq, Eq, Debug)]
pub enum Event {
    /// What a fresh starlark interpreter, which loads no files, made of the
    /// expression.
    Evaluated(ScriptOutcome),
    /// The command exited with this status code; `None` where a signal
    /// ended it.
    Exited(Option<i32>),
    /// The user answered the question yes (`true`) or no.
    Answered(bool),
}

/// What the caller is to do next.
#[derive(Debug, Clone, PartialEq, Eq)]
pub enum Action {
    /// Evaluate the starlark expression `source` of check `index` in a fresh
    /// interpreter that loads no files.
    Evaluate { index: usize, source: String },
    /// Run `command` in a shell with the checklist's environment, reporting
    /// it as step `index` of `total`.
    Execute { index: usize, total: usize, command: String },
    /// Ask `question`; `continuing` says that an earlier question was
    /// answered yes just before.
    Ask { question: String, continuing: bool },
    /// Report the end of the run and exit with `code`.
    Finish { code: i32 },
}

/// The model of an `Action`.
pub enum ActionView {
    Evaluate { index: usize, source: Seq<char> },
    Execute { index: usize, total: usize, command: Seq<char> },
    Ask { question: Seq<char>, continuing: bool },
    Finish { code: i32 },
}

impl View for Action {
    type V = ActionView;

    open spec fn view(&self) -> ActionView {
        match self {
            Action::Evaluate { index, source } => ActionView::Evaluate {
                index: *index,
                source: source@,
            },
            Action::Execute { index, total, command } => ActionView::Execute {
                index: *index,
                total: *total,
                command: command@,
            },
            Action::Ask { question, continuing } => ActionView::Ask {
                question: question@,
                continuing: *continuing,
            },
            Action::Finish { code } => ActionView::Finish { code: *code },
        }
    }
}

/// Why a run stopped without an exit code of its own.
#[derive(Debug, Clone, PartialEq, Eq)]
pub enum RunError {
    /// The automated check at `index` could not be evaluated.
    Evaluation { index: usize, error: EvalError },
    /// A command was ended by a signal and left no exit code.
    Signalled,
}

/// The model of a `RunError`.
pub enum RunErrorView {
    Evaluation { index: usize, error: EvalErrorView },
    Signalled,
}

impl View for RunError {
    type V = RunErrorView;

    open spec fn view(&self) -> RunErrorView {
        match self {
            RunError::Evaluation { index, error } => RunErrorView::Evaluation {
                index: *index,
                error: error@,
            },
            RunError::Signalled => RunErrorView::Signalled,
        }
    }
}

pub type Step = Result<(Stage, Action), RunError>;

pub type StepView = Result<(Stage, ActionView), RunErrorView>;

pub open spec fn step_view(r: Step) -> StepView {
    match r {
        Ok((s, a)) => Ok((s, a@)),
        Err(e) => Err(e@),
    }
}

pub open spec fn question_of(prefix: Seq<char>, prompt: Seq<char>) -> Seq<char> {
    prefix + prompt + "?"@
}

pub open spec fn finished(code: i32) -> StepView {
    Ok((Stage::Finished(code), ActionView::Finish { code }))
}

/// The run from question `i` on, every earlier one answered yes.
pub open spec fn manual_from(c: ChecklistView, i: int) -> StepView {
    if 0 <= i < c.manual.len() {
        Ok(
            (
                Stage::Manual(i as usize),
                ActionView::Ask {
                    question: question_of("Have you: "@, c.manual[i]),
                    continuing: i > 0,
                },
            ),
        )
    } else {
        finished(0)
    }
}

/// Command `i` runs as `command`, or its check fails to evaluate.
pub open spec fn execute_spec(
    c: ChecklistView,
    i: int,
    evaluated: Result<Seq<char>, EvalErrorView>,
) -> StepView {
    match evaluated {
        Ok(command) => Ok(
            (
                Stage::Automated(i as usize),
                ActionView::Execute { index: i as usize, total: c.automated.len() as usize, command },
            ),
        ),
        Err(e) => Err(RunErrorView::Evaluation { index: i as usize, error: e }),
    }
}

/// The run from check `i` on, every earlier command passed: a literal runs
/// as it is, an expression is evaluated first.
pub open spec fn automated_from(c: ChecklistView, i: int) -> StepView {
    if 0 <= i < c.automated.len() {
        match c.automated[i] {
            ExprView::Literal(command) => execute_spec(c, i, Ok(command)),
            ExprView::Script(source) => Ok(
                (Stage::Evaluating(i as usize), ActionView::Evaluate { index: i as usize, source }),
            ),
        }
    } else {
        manual_from(c, 0)
    }
}

/// The event fits the stage: an exit while a command runs, an answer while
/// a question is asked.
pub open spec fn accepts(c: ChecklistView, stage: Stage, event: Event) -> bool {
    match stage {
        Stage::Evaluating(i) => i < c.automated.len() && c.automated[i as int] is Script
            && event is Evaluated,
        Stage::Automated(i) => i < c.automated.len() && event is Exited,
        Stage::Manual(i) => i < c.manual.len() && event is Answered,
        Stage::Finished(_) => false,
    }
}

/// What follows `event` at `stage`: an expression's outcome gives the
/// command to run or stops the run, the first failing command ends the run
/// with its code, the first question answered no ends it with 1, and the
/// questions start only once every command has passed.
pub open spec fn next_spec(c: ChecklistView, stage: Stage, event: Event) -> StepView {
    match (stage, event) {
        (Stage::Evaluating(i), Event::Evaluated(o)) => execute_spec(
            c,
            i as int,
            interpret_spec(outcome_view(o), c.automated[i as int]->Script_0),
        ),
        (Stage::Automated(i), Event::Exited(status)) => match status {
            None => Err(RunErrorView::Signalled),
            Some(code) => if code == 0 {
                automated_from(c, i + 1)
            } else {
                finished(code)
            },
        },
        (Stage::Manual(i), Event::Answered(yes)) => if yes {
            manual_from(c, i + 1)
        } else {
            finished(1)
        },
        _ => Err(RunErrorView::Signalled),
    }
}

/// The run of the checklist `name` of a document: none at all, and success,
/// where the document has no such checklist.
pub open spec fn begin_spec(d: crate::model::DocumentView, name: Seq<char>) -> StepView {
    match lookup(d, name) {
        Some(c) => automated_from(c, 0),
        None => finished(0),
    }
}

/// The question put to the user: `prefix`, then `prompt`, then a question
/// mark.
pub fn ask_formatted_question(prefix: &str, prompt: &str) -> (r: String)
    ensures
        r@ == question_of(prefix@, prompt@),
{
    let mut q = prefix.to_owned();
    q.append(prompt);
    q.append("?");
    q
}

/// The run from question `i` on.
fn ask_from(checklist: &Checklist, i: usize) -> (r: Step)
    requires
        i <= checklist.manual@.len(),
    ensures
        step_view(r) == manual_from(checklist@, i as int),
{
    if i < checklist.manual.len() {
        let question = ask_formatted_question("Have you: ", checklist.manual[i].as_str());
        Ok((Stage::Manual(i), Action::Ask { question, continuing: i > 0 }))
    } else {
        Ok((Stage::Finished(0), Action::Finish { code: 0 }))
    }
}

/// Command `i` runs as the evaluated command, or the run stops.
fn execute(checklist: &Checklist, i: usize, evaluated: Result<String, EvalError>) -> (r: Step)
    requires
        i < checklist.automated@.len(),
    ensures
        step_view(r) == execute_spec(
            checklist@,
            i as int,
            crate::expr::eval_view(evaluated),
        ),
{
    match evaluated {
        Ok(command) => Ok(
            (
                Stage::Automated(i),
                Action::Execute { index: i, total: checklist.automated.len(), command },
            ),
        ),
        Err(error) => Err(RunError::Evaluation { index: i, error }),
    }
}

/// The run from check `i` on.
fn execute_from(checklist: &Checklist, i: usize) -> (r: Step)
    requires
        i <= checklist.automated@.len(),
    ensures
        step_view(r) == automated_from(checklist@, i as int),
{
    if i < checklist.automated.len() {
        match &checklist.automated[i] {
            CheckExpr::Literal(command) => execute(checklist, i, Ok(command.clone())),
            CheckExpr::Script(source) => Ok(
                (Stage::Evaluating(i), Action::Evaluate { index: i, source: source.clone() }),
            ),
        }
    } else {
        ask_from(checklist, 0)
    }
}

/// The first step of a run of `checklist`.
pub fn start(checklist: &Checklist) -> (r: Step)
    ensures
        step_view(r) == automated_from(checklist@, 0),
{
    execute_from(checklist, 0)
}

/// The step that follows `event` at `stage`.
pub fn advance(checklist: &Checklist, stage: Stage, event: Event) -> (r: Step)
    requires
        accepts(checklist@, stage, event),
    ensures
        step_view(r) == next_spec(checklist@, stage, event),
{
    match (stage, event) {
        (Stage::Evaluating(i), Event::Evaluated(outcome)) => match &checklist.automated[i] {
            CheckExpr::Script(source) => execute(checklist, i, interpret(outcome, source.as_str())),
            // `accepts` leaves this out: a literal is never evaluated.
            CheckExpr::Literal(_) => Err(RunError::Signalled),
        },
        (Stage::Automated(i), Event::Exited(status)) => match status {
            None => Err(RunError::Signalled),
            Some(code) => if code == 0 {
                let total = checklist.automated.len();
                assert(i + 1 <= total);
                execute_from(checklist, i + 1)
            } else {
                Ok((Stage::Finished(code), Action::Finish { code }))
            },
        },
        (Stage::Manual(i), Event::Answered(yes)) => if yes {
            let total = checklist.manual.len();
            assert(i + 1 <= total);
            ask_from(checklist, i + 1)
        } else {
            Ok((Stage::Finished(1), Action::Finish { code: 1 }))
        },
        _ => Err(RunError::Signalled),
    }
}

impl ChecklistDocument {
    /// The checklist that bears `name`, if any.
    pub fn get(&self, name: &str) -> (r: Option<&Checklist>)
        ensures
            match r {
                Some(c) => lookup(self@, name@) == Some(c@),
                None => lookup(self@, name@) is None,
            },
    {
        let mut i: usize = 0;
        assert(self@.subrange(0, self@.len() as int) =~= self@);
        while i < self.checklists.len()
            invariant
                i <= self@.len(),
                self@.len() == self.checklists@.len(),
                lookup(self@, name@) == lookup(self@.subrange(i as int, self@.len() as int), name@),
            decreases self@.len() - i,
        {
            let ghost rest = self@.subrange(i as int, self@.len() as int);
            assert(rest.drop_first() =~= self@.subrange(i + 1, self@.len() as int));
            if self.checklists[i].0 == name.to_owned() {
                return Some(&self.checklists[i].1);
            }
            i += 1;
        }
        None
    }
}

/// The first step of a run of the checklist `name` of `document`.
pub fn begin(document: &ChecklistDocument, name: &str) -> (r: Step)
    ensures
        step_view(r) == begin_spec(document@, name@),
{
    match document.get(name) {
        Some(c) => start(c),
        None => Ok((Stage::Finished(0), Action::Finish { code: 0 })),
    }
}

/// The line that closes a run that ended with `code`.
pub fn summary(code: i32) -> (r: &'static str)
    ensures
        code == 0 ==> r@ == "all clear!"@,
        code != 0 ==> r@ == "aborting, please fix and start again"@,
{
    if code == 0 {
        "all clear!"
    } else {
        "aborting, please fix and start again"
    }
}

/// A command that exits with a nonzero code ends the run at once with that
/// code: the run then takes no event, so no later command runs and no
/// question is asked.
pub proof fn failing_command_ends_run(c: ChecklistView, i: usize, code: i32, later: Event)
    requires
        accepts(c, Stage::Automated(i), Event::Exited(Some(code))),
        code != 0,
    ensures
        next_spec(c, Stage::Automated(i), Event::Exited(Some(code))) == finished(code),
        !accepts(c, Stage::Finished(code), later),
{
}

/// A question answered no ends the run at once with code 1, and no later
/// question is asked.
pub proof fn rejected_question_ends_run(c: ChecklistView, i: usize, later: Event)
    requires
        accepts(c, Stage::Manual(i), Event::Answered(false)),
    ensures
        next_spec(c, Stage::Manual(i), Event::Answered(false)) == finished(1),
        !accepts(c, Stage::Finished(1), later),
{
}

/// Questions come only after every command: the run reaches the first
/// question (or, with none, success) exactly when the last command passes.
pub proof fn questions_follow_passing_commands(c: ChecklistView)
    requires
        0 < c.automated.len() <= usize::MAX,
    ensures
        next_spec(
            c,
            Stage::Automated((c.automated.len() - 1) as usize),
            Event::Exited(Some(0)),
        ) == manual_from(c, 0),
{
}

} // verus!
