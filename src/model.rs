//! The checklist document and its mathematical model.

use vstd::prelude::*;

verus! {

/// An automated check: a shell command written out, or a starlark
/// expression that computes one.
#[derive(Debug, Clone, PartialEq, Eq)]
pub enum CheckExpr {
    Literal(String),
    Script(String),
}

/// The model of a `CheckExpr`.
pub enum ExprView {
    Literal(Seq<char>),
    Script(Seq<char>),
}

impl View for CheckExpr {
    type V = ExprView;

    open spec fn view(&self) -> ExprView {
        match self {
            CheckExpr::Literal(s) => ExprView::Literal(s@),
            CheckExpr::Script(s) => ExprView::Script(s@),
        }
    }
}

/// One named checklist: the variables set for its commands, the commands
/// in the order they run, and the questions in the order they are asked.
#[derive(Debug, Clone, PartialEq, Eq)]
pub struct Checklist {
    pub environment: Vec<(String, String)>,
    pub automated: Vec<CheckExpr>,
    pub manual: Vec<String>,
}

/// The model of a `Checklist`.
pub struct ChecklistView {
    pub environment: Seq<(Seq<char>, Seq<char>)>,
    pub automated: Seq<ExprView>,
    pub manual: Seq<Seq<char>>,
}

pub open spec fn pair_view(p: (String, String)) -> (Seq<char>, Seq<char>) {
    (p.0@, p.1@)
}

pub open spec fn text_view(s: String) -> Seq<char> {
    s@
}

pub open spec fn expr_view(e: CheckExpr) -> ExprView {
    e@
}

impl View for Checklist {
    type V = ChecklistView;

    open spec fn view(&self) -> ChecklistView {
        ChecklistView {
            environment: self.environment@.map_values(|p: (String, String)| pair_view(p)),
            automated: self.automated@.map_values(|e: CheckExpr| expr_view(e)),
            manual: self.manual@.map_values(|s: String| text_view(s)),
        }
    }
}

/// The model of a document: each checklist with its name, in the order of
/// the source.
pub type DocumentView = Seq<(Seq<char>, ChecklistView)>;

/// The checklists of one document, by name.
#[derive(Debug, Clone, PartialEq, Eq)]
pub struct ChecklistDocument {
    pub checklists: Vec<(String, Checklist)>,
}

pub open spec fn entry_view(e: (String, Checklist)) -> (Seq<char>, ChecklistView) {
    (e.0@, e.1@)
}

impl View for ChecklistDocument {
    type V = DocumentView;

    open spec fn view(&self) -> DocumentView {
        self.checklists@.map_values(|e: (String, Checklist)| entry_view(e))
    }
}

/// No two variables of an environment share a name.
pub open spec fn variables_distinct(env: Seq<(Seq<char>, Seq<char>)>) -> bool {
    forall|a: int, b: int| 0 <= a < b < env.len() ==> #[trigger] env[a].0 != #[trigger] env[b].0
}

/// A document that can be written out and read back: its checklists have
/// distinct names, none of them the version tag, and each one's variables
/// have distinct names.
pub open spec fn document_wf(d: DocumentView) -> bool {
    &&& forall|a: int, b: int| 0 <= a < b < d.len() ==> #[trigger] d[a].0 != #[trigger] d[b].0
    &&& forall|a: int| 0 <= a < d.len() ==> (#[trigger] d[a]).0 != "schema_version"@
    &&& forall|a: int| 0 <= a < d.len() ==> variables_distinct((#[trigger] d[a]).1.environment)
}

/// The checklist of the document that bears `name`, if any.
pub open spec fn lookup(d: DocumentView, name: Seq<char>) -> Option<ChecklistView>
    decreases d.len(),
{
    if d.len() == 0 {
        None
    } else if d[0].0 == name {
        Some(d[0].1)
    } else {
        lookup(d.drop_first(), name)
    }
}

} // verus!
