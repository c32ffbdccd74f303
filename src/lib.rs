//! A pre-commit checklist engine: a versioned checklist document, what the
//! evaluation of an automated check means, and the decisions of a run that
//! evaluates expressions, executes commands and asks manual questions in turn.

pub mod dump;
pub mod expr;
pub mod model;
pub mod options;
pub mod schema;
pub mod session;
mod text;
pub mod yaml;

pub use expr::{interpret, EvalError, ScriptOutcome};
pub use model::{CheckExpr, Checklist, ChecklistDocument};
pub use options::Opt;
pub use schema::{load, parse, ParseError, SCHEMA_VERSION};
pub use session::{advance, ask_formatted_question, begin, start, summary, Action, Event, RunError, Stage};
pub use yaml::Yaml;
