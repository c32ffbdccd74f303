//! What the outcome of evaluating a starlark expression means for the
//! check that holds it.

use vstd::prelude::*;

use crate::text::same_text;

verus! {

/// Why an automated check could not be turned into a command.
#[derive(Debug, Clone, PartialEq, Eq)]
pub enum EvalError {
    /// The expression failed to parse or to run: its source, and what the
    /// interpreter said.
    ScriptError { source: String, diagnostic: String },
    /// The expression ran, but its value was of type `actual`, not a string.
    TypeError { source: String, actual: String },
}

/// The model of an `EvalError`.
pub enum EvalErrorView {
    ScriptError { source: Seq<char>, diagnostic: Seq<char> },
    TypeError { source: Seq<char>, actual: Seq<char> },
}

impl View for EvalError {
    type V = EvalErrorView;

    open spec fn view(&self) -> EvalErrorView {
        match self {
            EvalError::ScriptError { source, diagnostic } => EvalErrorView::ScriptError {
                source: source@,
                diagnostic: diagnostic@,
            },
            EvalError::TypeError { source, actual } => EvalErrorView::TypeError {
                source: source@,
                actual: actual@,
            },
        }
    }
}

/// What a starlark interpreter made of a piece of source: the type name and
/// the text of the value, or the message of the diagnostic it raised.
pub type ScriptOutcome = Result<(String, String), String>;

pub open spec fn outcome_view(o: ScriptOutcome) -> Result<(Seq<char>, Seq<char>), Seq<char>> {
    match o {
        Ok((t, v)) => Ok((t@, v@)),
        Err(d) => Err(d@),
    }
}

pub open spec fn eval_view(r: Result<String, EvalError>) -> Result<Seq<char>, EvalErrorView> {
    match r {
        Ok(s) => Ok(s@),
        Err(e) => Err(e@),
    }
}

/// What evaluating the expression `src` yields when the interpreter's
/// outcome is `o`: a string value is the command, any other value is a type
/// error, a diagnostic is a script error that names the source.
pub open spec fn interpret_spec(
    o: Result<(Seq<char>, Seq<char>), Seq<char>>,
    src: Seq<char>,
) -> Result<Seq<char>, EvalErrorView> {
    match o {
        Ok((t, v)) => if t == "string"@ {
            Ok(v)
        } else {
            Err(EvalErrorView::TypeError { source: src, actual: t })
        },
        Err(d) => Err(EvalErrorView::ScriptError { source: src, diagnostic: d }),
    }
}

/// Turns the interpreter's outcome on `src` into a command or an error.
pub fn interpret(outcome: ScriptOutcome, src: &str) -> (r: Result<String, EvalError>)
    ensures
        eval_view(r) == interpret_spec(outcome_view(outcome), src@),
{
    match outcome {
        Ok((t, v)) => {
            if same_text(t.as_str(), "string") {
                Ok(v)
            } else {
                Err(EvalError::TypeError { source: src.to_owned(), actual: t })
            }
        },
        Err(d) => Err(EvalError::ScriptError { source: src.to_owned(), diagnostic: d }),
    }
}

/// An expression whose value is not a string fails with a type error that
/// names the expression and the value's type; it is never taken as a command.
pub proof fn non_string_value_is_type_error(src: Seq<char>, t: Seq<char>, v: Seq<char>)
    requires
        t != "string"@,
    ensures
        interpret_spec(Ok((t, v)), src) == Err::<Seq<char>, EvalErrorView>(
            EvalErrorView::TypeError { source: src, actual: t },
        ),
{
}

} // verus!
