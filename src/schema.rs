//! Reading a checklist document: the versioned schema over a YAML tree.

use vstd::prelude::*;
use vstd::string::*;

use crate::dump::read_documents_write_back;
use crate::model::{document_wf, entry_view, expr_view, pair_view, text_view, CheckExpr, Checklist, ChecklistDocument, ChecklistView, DocumentView, ExprView};
use crate::text::same_text;
use crate::yaml::{read_yaml, yaml_tree_of, Yaml};

verus! {

/// The one schema version that this library reads. It goes up by one
/// whenever the shape of the document changes.
pub const SCHEMA_VERSION: i64 = 3;

/// Why a document could not be read.
#[derive(Debug, Clone, PartialEq, Eq)]
pub enum ParseError {
    /// The bytes are not YAML, or not a document of the expected shape;
    /// the text says what was wrong.
    Malformed(String),
    /// The `schema_version` tag is missing, not an integer, or not the
    /// supported one.
    UnsupportedVersion,
}

/// The kind of a `ParseError`, without its message.
#[derive(PartialEq, Eq, Structural, Clone, Copy, Debug)]
pub enum LoadFailure {
    Malformed,
    UnsupportedVersion,
}

impl View for ParseError {
    type V = LoadFailure;

    open spec fn view(&self) -> LoadFailure {
        match self {
            ParseError::Malformed(_) => LoadFailure::Malformed,
            ParseError::UnsupportedVersion => LoadFailure::UnsupportedVersion,
        }
    }
}

pub open spec fn is_key(y: Yaml, k: Seq<char>) -> bool {
    y is Str && y->Str_0@ == k
}

pub open spec fn str_text(y: Yaml) -> Seq<char> {
    y->Str_0@
}

/// Every key of the mapping is a string, and no two keys are equal.
pub open spec fn keys_ok(es: Seq<(Yaml, Yaml)>) -> bool {
    &&& forall|a: int| 0 <= a < es.len() ==> (#[trigger] es[a]).0 is Str
    &&& forall|a: int, b: int|
        #![trigger es[a], es[b]]
        0 <= a < b < es.len() ==> str_text(es[a].0) != str_text(es[b].0)
}

/// Entry `a` of a mapping is `starlark: <string>`.
pub open spec fn starlark_entry(es: Seq<(Yaml, Yaml)>, a: int) -> bool {
    0 <= a < es.len() && is_key(es[a].0, "starlark"@) && es[a].1 is Str
}

/// An automated entry: a string is a command; a mapping with distinct
/// string keys, one of them `starlark` with a string value, is an
/// expression (its other keys are passed over).
pub open spec fn expr_of(y: Yaml) -> Option<ExprView> {
    match y {
        Yaml::Str(s) => Some(ExprView::Literal(s@)),
        Yaml::Dict(es) => {
            if keys_ok(es@) && exists|a: int| starlark_entry(es@, a) {
                Some(
                    ExprView::Script(
                        str_text(es@[choose|a: int| starlark_entry(es@, a)].1),
                    ),
                )
            } else {
                None
            }
        },
        _ => None,
    }
}

pub open spec fn expr_found(y: Yaml) -> ExprView {
    expr_of(y)->Some_0
}

/// The `manual` field: a list of strings.
pub open spec fn manual_of(y: Yaml) -> Option<Seq<Seq<char>>> {
    match y {
        Yaml::List(xs) => {
            if forall|a: int| 0 <= a < xs@.len() ==> (#[trigger] xs@[a]) is Str {
                Some(xs@.map_values(|x: Yaml| str_text(x)))
            } else {
                None
            }
        },
        _ => None,
    }
}

/// The `automated` field: a list of automated entries.
pub open spec fn automated_of(y: Yaml) -> Option<Seq<ExprView>> {
    match y {
        Yaml::List(xs) => {
            if forall|a: int| 0 <= a < xs@.len() ==> expr_of(#[trigger] xs@[a]) is Some {
                Some(xs@.map_values(|x: Yaml| expr_found(x)))
            } else {
                None
            }
        },
        _ => None,
    }
}

pub open spec fn str_pair(e: (Yaml, Yaml)) -> (Seq<char>, Seq<char>) {
    (str_text(e.0), str_text(e.1))
}

/// The `environment` field: a mapping from distinct strings to strings.
pub open spec fn environment_of(y: Yaml) -> Option<Seq<(Seq<char>, Seq<char>)>> {
    match y {
        Yaml::Dict(es) => {
            if keys_ok(es@) && forall|a: int| 0 <= a < es@.len() ==> (#[trigger] es@[a]).1 is Str {
                Some(es@.map_values(|e: (Yaml, Yaml)| str_pair(e)))
            } else {
                None
            }
        },
        _ => None,
    }
}

pub open spec fn empty_checklist() -> ChecklistView {
    ChecklistView { environment: Seq::empty(), automated: Seq::empty(), manual: Seq::empty() }
}

/// A checklist with one more field of its mapping read: a known field that
/// is ill-formed spoils it, an unknown one is passed over.
pub open spec fn with_field(c: Option<ChecklistView>, key: Yaml, value: Yaml) -> Option<
    ChecklistView,
> {
    match c {
        None => None,
        Some(c) => {
            if is_key(key, "environment"@) {
                match environment_of(value) {
                    Some(e) => Some(ChecklistView { environment: e, ..c }),
                    None => None,
                }
            } else if is_key(key, "automated"@) {
                match automated_of(value) {
                    Some(a) => Some(ChecklistView { automated: a, ..c }),
                    None => None,
                }
            } else if is_key(key, "manual"@) {
                match manual_of(value) {
                    Some(m) => Some(ChecklistView { manual: m, ..c }),
                    None => None,
                }
            } else {
                Some(c)
            }
        },
    }
}

/// The checklist that the fields `es` describe, each absent field empty.
pub open spec fn fields_of(es: Seq<(Yaml, Yaml)>) -> Option<ChecklistView>
    decreases es.len(),
{
    if es.len() == 0 {
        Some(empty_checklist())
    } else {
        with_field(fields_of(es.drop_last()), es.last().0, es.last().1)
    }
}

/// A checklist: a mapping with string keys, no two alike.
pub open spec fn checklist_of(y: Yaml) -> Option<ChecklistView> {
    match y {
        Yaml::Dict(es) => if keys_ok(es@) {
            fields_of(es@)
        } else {
            None
        },
        _ => None,
    }
}

/// The version tag is there and holds the supported integer.
pub open spec fn supported_version(es: Seq<(Yaml, Yaml)>) -> bool {
    exists|a: int|
        0 <= a < es.len() && is_key((#[trigger] es[a]).0, "schema_version"@) && es[a].1
            == Yaml::Int(SCHEMA_VERSION)
}

/// The named checklists of the top-level mapping, the version tag passed over.
pub open spec fn checklists_of(es: Seq<(Yaml, Yaml)>) -> Option<DocumentView>
    decreases es.len(),
{
    if es.len() == 0 {
        Some(Seq::empty())
    } else {
        match checklists_of(es.drop_last()) {
            None => None,
            Some(d) => {
                if is_key(es.last().0, "schema_version"@) {
                    Some(d)
                } else {
                    match checklist_of(es.last().1) {
                        Some(c) => Some(d.push((str_text(es.last().0), c))),
                        None => None,
                    }
                }
            },
        }
    }
}

/// What reading the tree `root` gives: the shape of the top level first,
/// then the version tag, then each checklist.
pub open spec fn document_of(root: Yaml) -> Result<DocumentView, LoadFailure> {
    match root {
        Yaml::Dict(es) => {
            if !keys_ok(es@) {
                Err(LoadFailure::Malformed)
            } else if !supported_version(es@) {
                Err(LoadFailure::UnsupportedVersion)
            } else {
                match checklists_of(es@) {
                    Some(d) => Ok(d),
                    None => Err(LoadFailure::Malformed),
                }
            }
        },
        _ => Err(LoadFailure::Malformed),
    }
}

/// What reading the bytes of a document gives.
pub open spec fn parse_spec(bytes: Seq<u8>) -> Result<DocumentView, LoadFailure> {
    match yaml_tree_of(bytes) {
        None => Err(LoadFailure::Malformed),
        Some(root) => document_of(root),
    }
}

pub open spec fn load_outcome(r: Result<ChecklistDocument, ParseError>) -> Result<
    DocumentView,
    LoadFailure,
> {
    match r {
        Ok(d) => Ok(d@),
        Err(e) => Err(e@),
    }
}

/// Whether every key of the mapping is a string and no two are equal.
fn keys_distinct(es: &Vec<(Yaml, Yaml)>) -> (r: bool)
    ensures
        r == keys_ok(es@),
{
    let n = es.len();
    let mut i: usize = 0;
    while i < n
        invariant
            n == es@.len(),
            i <= n,
            forall|a: int| 0 <= a < i ==> (#[trigger] es@[a]).0 is Str,
            forall|a: int, b: int|
                #![trigger es@[a], es@[b]]
                0 <= a < b < i ==> str_text(es@[a].0) != str_text(es@[b].0),
        decreases n - i,
    {
        match &es[i].0 {
            Yaml::Str(k) => {
                let mut j: usize = 0;
                while j < i
                    invariant
                        n == es@.len(),
                        j <= i < n,
                        es@[i as int].0 == Yaml::Str(*k),
                        forall|a: int| 0 <= a < i ==> (#[trigger] es@[a]).0 is Str,
                        forall|a: int| 0 <= a < j ==> str_text((#[trigger] es@[a]).0) != k@,
                    decreases i - j,
                {
                    match &es[j].0 {
                        Yaml::Str(kj) => {
                            if same_text(kj.as_str(), k.as_str()) {
                                assert(str_text(es@[j as int].0) == str_text(es@[i as int].0));
                                return false;
                            }
                        },
                        _ => {},
                    }
                    j += 1;
                }
            },
            _ => {
                return false;
            },
        }
        i += 1;
    }
    true
}

pub open spec fn opt_expr(r: Option<CheckExpr>) -> Option<ExprView> {
    match r {
        Some(e) => Some(e@),
        None => None,
    }
}

/// Reads one automated entry.
fn expr_from(y: &Yaml) -> (r: Option<CheckExpr>)
    ensures
        opt_expr(r) == expr_of(*y),
{
    match y {
        Yaml::Str(s) => Some(CheckExpr::Literal(s.clone())),
        Yaml::Dict(es) => {
            if !keys_distinct(es) {
                return None;
            }
            let mut i: usize = 0;
            while i < es.len()
                invariant
                    *y == Yaml::Dict(*es),
                    keys_ok(es@),
                    i <= es@.len(),
                    forall|a: int| 0 <= a < i ==> !starlark_entry(es@, a),
                decreases es@.len() - i,
            {
                match &es[i].0 {
                    Yaml::Str(k) => {
                        if same_text(k.as_str(), "starlark") {
                            assert forall|a: int| starlark_entry(es@, a) implies a == i by {
                                if a != i {
                                    assert(str_text(es@[a].0) == str_text(es@[i as int].0));
                                }
                            }
                            match &es[i].1 {
                                Yaml::Str(src) => {
                                    assert(starlark_entry(es@, i as int));
                                    return Some(CheckExpr::Script(src.clone()));
                                },
                                _ => {
                                    return None;
                                },
                            }
                        }
                    },
                    _ => {},
                }
                i += 1;
            }
            None
        },
        _ => None,
    }
}

pub open spec fn opt_texts(r: Option<Vec<String>>) -> Option<Seq<Seq<char>>> {
    match r {
        Some(v) => Some(v@.map_values(|s: String| text_view(s))),
        None => None,
    }
}

/// Reads the `manual` field.
fn manual_from(y: &Yaml) -> (r: Option<Vec<String>>)
    ensures
        opt_texts(r) == manual_of(*y),
{
    match y {
        Yaml::List(xs) => {
            let mut out: Vec<String> = Vec::new();
            let mut i: usize = 0;
            while i < xs.len()
                invariant
                    *y == Yaml::List(*xs),
                    i <= xs@.len(),
                    out@.len() == i,
                    forall|a: int| 0 <= a < i ==> (#[trigger] xs@[a]) is Str,
                    forall|a: int| 0 <= a < i ==> (#[trigger] out@[a])@ == str_text(xs@[a]),
                decreases xs@.len() - i,
            {
                match &xs[i] {
                    Yaml::Str(s) => out.push(s.clone()),
                    _ => {
                        assert(!(xs@[i as int] is Str));
                        return None;
                    },
                }
                i += 1;
            }
            assert(out@.map_values(|s: String| text_view(s)) =~= xs@.map_values(|x: Yaml| str_text(x)));
            Some(out)
        },
        _ => None,
    }
}

pub open spec fn opt_exprs(r: Option<Vec<CheckExpr>>) -> Option<Seq<ExprView>> {
    match r {
        Some(v) => Some(v@.map_values(|e: CheckExpr| expr_view(e))),
        None => None,
    }
}

/// Reads the `automated` field.
fn automated_from(y: &Yaml) -> (r: Option<Vec<CheckExpr>>)
    ensures
        opt_exprs(r) == automated_of(*y),
{
    match y {
        Yaml::List(xs) => {
            let mut out: Vec<CheckExpr> = Vec::new();
            let mut i: usize = 0;
            while i < xs.len()
                invariant
                    *y == Yaml::List(*xs),
                    i <= xs@.len(),
                    out@.len() == i,
                    forall|a: int| 0 <= a < i ==> expr_of(#[trigger] xs@[a]) is Some,
                    forall|a: int| 0 <= a < i ==> (#[trigger] out@[a])@ == expr_found(xs@[a]),
                decreases xs@.len() - i,
            {
                match expr_from(&xs[i]) {
                    Some(e) => out.push(e),
                    None => {
                        assert(expr_of(xs@[i as int]) is None);
                        return None;
                    },
                }
                i += 1;
            }
            assert(out@.map_values(|e: CheckExpr| expr_view(e)) =~= xs@.map_values(
                |x: Yaml| expr_found(x),
            ));
            Some(out)
        },
        _ => None,
    }
}

pub open spec fn opt_pairs(r: Option<Vec<(String, String)>>) -> Option<
    Seq<(Seq<char>, Seq<char>)>,
> {
    match r {
        Some(v) => Some(v@.map_values(|p: (String, String)| pair_view(p))),
        None => None,
    }
}

/// Reads the `environment` field.
fn environment_from(y: &Yaml) -> (r: Option<Vec<(String, String)>>)
    ensures
        opt_pairs(r) == environment_of(*y),
{
    match y {
        Yaml::Dict(es) => {
            if !keys_distinct(es) {
                return None;
            }
            let mut out: Vec<(String, String)> = Vec::new();
            let mut i: usize = 0;
            while i < es.len()
                invariant
                    *y == Yaml::Dict(*es),
                    keys_ok(es@),
                    i <= es@.len(),
                    out@.len() == i,
                    forall|a: int| 0 <= a < i ==> (#[trigger] es@[a]).1 is Str,
                    forall|a: int|
                        0 <= a < i ==> pair_view(#[trigger] out@[a]) == str_pair(es@[a]),
                decreases es@.len() - i,
            {
                assert(es@[i as int].0 is Str);
                match (&es[i].0, &es[i].1) {
                    (Yaml::Str(k), Yaml::Str(v)) => out.push((k.clone(), v.clone())),
                    _ => {
                        assert(!(es@[i as int].1 is Str));
                        return None;
                    },
                }
                i += 1;
            }
            assert(out@.map_values(|p: (String, String)| pair_view(p)) =~= es@.map_values(
                |e: (Yaml, Yaml)| str_pair(e),
            ));
            Some(out)
        },
        _ => None,
    }
}

/// Once a field is ill-formed, no later field mends the checklist.
proof fn lemma_fields_stay_failed(es: Seq<(Yaml, Yaml)>, j: int, k: int)
    requires
        0 <= j <= k <= es.len(),
        fields_of(es.subrange(0, j)) is None,
    ensures
        fields_of(es.subrange(0, k)) is None,
    decreases k - j,
{
    if j < k {
        assert(es.subrange(0, j + 1).drop_last() =~= es.subrange(0, j));
        lemma_fields_stay_failed(es, j + 1, k);
    }
}

/// Once a checklist is ill-formed, no later one mends the document.
proof fn lemma_checklists_stay_failed(es: Seq<(Yaml, Yaml)>, j: int, k: int)
    requires
        0 <= j <= k <= es.len(),
        checklists_of(es.subrange(0, j)) is None,
    ensures
        checklists_of(es.subrange(0, k)) is None,
    decreases k - j,
{
    if j < k {
        assert(es.subrange(0, j + 1).drop_last() =~= es.subrange(0, j));
        lemma_checklists_stay_failed(es, j + 1, k);
    }
}

pub open spec fn opt_checklist(r: Option<Checklist>) -> Option<ChecklistView> {
    match r {
        Some(c) => Some(c@),
        None => None,
    }
}

/// Reads one checklist from its mapping.
fn checklist_from(y: &Yaml) -> (r: Option<Checklist>)
    ensures
        opt_checklist(r) == checklist_of(*y),
{
    match y {
        Yaml::Dict(es) => {
            if !keys_distinct(es) {
                return None;
            }
            let mut c = Checklist { environment: Vec::new(), automated: Vec::new(), manual: Vec::new() };
            assert(c@.environment =~= Seq::empty());
            assert(c@.automated =~= Seq::empty());
            assert(c@.manual =~= Seq::empty());
            assert(es@.subrange(0, 0) =~= Seq::<(Yaml, Yaml)>::empty());
            let mut i: usize = 0;
            while i < es.len()
                invariant
                    *y == Yaml::Dict(*es),
                    keys_ok(es@),
                    i <= es@.len(),
                    fields_of(es@.subrange(0, i as int)) == Some(c@),
                decreases es@.len() - i,
            {
                assert(es@.subrange(0, i + 1).drop_last() =~= es@.subrange(0, i as int));
                assert(es@.subrange(0, i + 1).last() == es@[i as int]);
                assert(es@[i as int].0 is Str);
                let key = &es[i].0;
                let value = &es[i].1;
                let ghost before = c@;
                assert(fields_of(es@.subrange(0, i + 1)) == with_field(Some(before), *key, *value));
                match key {
                    Yaml::Str(k) => {
                        if same_text(k.as_str(), "environment") {
                            match environment_from(value) {
                                Some(e) => {
                                    c.environment = e;
                                },
                                None => {
                                    proof {
                                        lemma_fields_stay_failed(es@, i + 1, es@.len() as int);
                                    }
                                    assert(es@.subrange(0, es@.len() as int) =~= es@);
                                    return None;
                                },
                            }
                        } else if same_text(k.as_str(), "automated") {
                            match automated_from(value) {
                                Some(a) => {
                                    c.automated = a;
                                },
                                None => {
                                    proof {
                                        lemma_fields_stay_failed(es@, i + 1, es@.len() as int);
                                    }
                                    assert(es@.subrange(0, es@.len() as int) =~= es@);
                                    return None;
                                },
                            }
                        } else if same_text(k.as_str(), "manual") {
                            match manual_from(value) {
                                Some(m) => {
                                    c.manual = m;
                                },
                                None => {
                                    proof {
                                        lemma_fields_stay_failed(es@, i + 1, es@.len() as int);
                                    }
                                    assert(es@.subrange(0, es@.len() as int) =~= es@);
                                    return None;
                                },
                            }
                        }
                    },
                    _ => {},
                }
                i += 1;
            }
            assert(es@.subrange(0, es@.len() as int) =~= es@);
            Some(c)
        },
        _ => None,
    }
}

/// Whether the top-level mapping bears the supported version tag.
fn version_supported(es: &Vec<(Yaml, Yaml)>) -> (r: bool)
    ensures
        r == supported_version(es@),
{
    let mut i: usize = 0;
    while i < es.len()
        invariant
            i <= es@.len(),
            forall|a: int|
                0 <= a < i ==> !(is_key((#[trigger] es@[a]).0, "schema_version"@) && es@[a].1
                    == Yaml::Int(SCHEMA_VERSION)),
        decreases es@.len() - i,
    {
        match (&es[i].0, &es[i].1) {
            (Yaml::Str(k), Yaml::Int(v)) => {
                if same_text(k.as_str(), "schema_version") && *v == SCHEMA_VERSION {
                    assert(is_key(es@[i as int].0, "schema_version"@));
                    return true;
                }
            },
            _ => {},
        }
        i += 1;
    }
    false
}

/// Reads a document from its YAML tree.
pub fn load(root: &Yaml) -> (r: Result<ChecklistDocument, ParseError>)
    ensures
        load_outcome(r) == document_of(*root),
        r is Ok ==> document_wf(r->Ok_0@),
{
    match root {
        Yaml::Dict(es) => {
            if !keys_distinct(es) {
                return Err(ParseError::Malformed(String::from_str("mapping keys must be distinct strings")));
            }
            if !version_supported(es) {
                return Err(ParseError::UnsupportedVersion);
            }
            let mut out: Vec<(String, Checklist)> = Vec::new();
            assert(es@.subrange(0, 0) =~= Seq::<(Yaml, Yaml)>::empty());
            assert(out@.map_values(|e: (String, Checklist)| entry_view(e)) =~= Seq::<(Seq<char>, ChecklistView)>::empty());
            let mut i: usize = 0;
            while i < es.len()
                invariant
                    *root == Yaml::Dict(*es),
                    keys_ok(es@),
                    supported_version(es@),
                    i <= es@.len(),
                    checklists_of(es@.subrange(0, i as int)) == Some(
                        out@.map_values(|e: (String, Checklist)| entry_view(e)),
                    ),
                decreases es@.len() - i,
            {
                assert(es@.subrange(0, i + 1).drop_last() =~= es@.subrange(0, i as int));
                assert(es@.subrange(0, i + 1).last() == es@[i as int]);
                assert(es@[i as int].0 is Str);
                match &es[i].0 {
                    Yaml::Str(k) => {
                        if !same_text(k.as_str(), "schema_version") {
                            match checklist_from(&es[i].1) {
                                Some(c) => {
                                    let ghost before = out@;
                                    out.push((k.clone(), c));
                                    assert(out@.map_values(|e: (String, Checklist)| entry_view(e)) =~= before.map_values(|e: (String, Checklist)| entry_view(e)).push(entry_view(out@.last())));
                                },
                                None => {
                                    proof {
                                        lemma_checklists_stay_failed(es@, i + 1, es@.len() as int);
                                    }
                                    assert(es@.subrange(0, es@.len() as int) =~= es@);
                                    return Err(ParseError::Malformed(String::from_str("a checklist is not of the expected shape")));
                                },
                            }
                        }
                    },
                    _ => {},
                }
                i += 1;
            }
            assert(es@.subrange(0, es@.len() as int) =~= es@);
            proof {
                read_documents_write_back(*root);
            }
            Ok(ChecklistDocument { checklists: out })
        },
        _ => Err(ParseError::Malformed(String::from_str("the document must be a mapping"))),
    }
}

/// Reads a checklist document from its bytes.
pub fn parse(bytes: &[u8]) -> (r: Result<ChecklistDocument, ParseError>)
    ensures
        load_outcome(r) == parse_spec(bytes@),
        r is Ok ==> document_wf(r->Ok_0@),
{
    match read_yaml(bytes) {
        Ok(root) => load(&root),
        Err(message) => Err(ParseError::Malformed(message)),
    }
}

/// The top level of a tree holds the version tag with the supported value.
pub open spec fn has_supported_version(root: Yaml) -> bool {
    root is Dict && supported_version(root->Dict_0@)
}

/// A document whose version tag is missing, not an integer, or not the
/// supported one is never read: reading it fails.
pub proof fn unsupported_version_rejected(bytes: Seq<u8>)
    requires
        yaml_tree_of(bytes) is Some ==> !has_supported_version(yaml_tree_of(bytes)->Some_0),
    ensures
        parse_spec(bytes) is Err,
{
}

/// A field that the checklist mapping holds is one that reading accepts:
/// a known field with a value of its shape, or any unknown field.
pub open spec fn field_ok(key: Yaml, value: Yaml) -> bool {
    &&& is_key(key, "environment"@) ==> environment_of(value) is Some
    &&& is_key(key, "automated"@) ==> automated_of(value) is Some
    &&& is_key(key, "manual"@) ==> manual_of(value) is Some
}

pub open spec fn lacks_key(es: Seq<(Yaml, Yaml)>, k: Seq<char>) -> bool {
    forall|a: int| 0 <= a < es.len() ==> !is_key((#[trigger] es[a]).0, k)
}

/// Reading the fields of a checklist fails only on a field that is there
/// and ill-formed: a field left out is no error, and reads as empty.
pub proof fn absent_fields_read_as_empty(es: Seq<(Yaml, Yaml)>)
    ensures
        fields_of(es) is Some <==> forall|a: int|
            0 <= a < es.len() ==> field_ok((#[trigger] es[a]).0, es[a].1),
        fields_of(es) is Some && lacks_key(es, "environment"@) ==> fields_of(es)->Some_0.environment
            == Seq::<(Seq<char>, Seq<char>)>::empty(),
        fields_of(es) is Some && lacks_key(es, "automated"@) ==> fields_of(es)->Some_0.automated
            == Seq::<crate::model::ExprView>::empty(),
        fields_of(es) is Some && lacks_key(es, "manual"@) ==> fields_of(es)->Some_0.manual
            == Seq::<Seq<char>>::empty(),
    decreases es.len(),
{
    reveal_strlit("environment");
    reveal_strlit("automated");
    reveal_strlit("manual");
    assert("environment"@[0] != "automated"@[0]);
    assert("environment"@[0] != "manual"@[0]);
    assert("automated"@[0] != "manual"@[0]);
    if es.len() > 0 {
        let p = es.drop_last();
        absent_fields_read_as_empty(p);
        assert forall|a: int| 0 <= a < p.len() implies #[trigger] p[a] == es[a] by {}
        if forall|a: int| 0 <= a < es.len() ==> field_ok((#[trigger] es[a]).0, es[a].1) {
            assert forall|a: int| 0 <= a < p.len() implies field_ok((#[trigger] p[a]).0, p[a].1) by {
                assert(field_ok(es[a].0, es[a].1));
            }
            assert(field_ok(es[es.len() - 1].0, es[es.len() - 1].1));
        }
        if fields_of(es) is Some {
            assert forall|a: int| 0 <= a < es.len() implies field_ok((#[trigger] es[a]).0, es[a].1) by {
                assert(fields_of(p) is Some);
                if a < p.len() {
                    assert(field_ok(p[a].0, p[a].1));
                } else {
                    assert(es[a] == es.last());
                }
            }
        }
        if lacks_key(es, "environment"@) {
            assert forall|a: int| 0 <= a < p.len() implies !is_key((#[trigger] p[a]).0, "environment"@) by {
                assert(!is_key(es[a].0, "environment"@));
            }
            assert(!is_key(es[es.len() - 1].0, "environment"@));
        }
        if lacks_key(es, "automated"@) {
            assert forall|a: int| 0 <= a < p.len() implies !is_key((#[trigger] p[a]).0, "automated"@) by {
                assert(!is_key(es[a].0, "automated"@));
            }
            assert(!is_key(es[es.len() - 1].0, "automated"@));
        }
        if lacks_key(es, "manual"@) {
            assert forall|a: int| 0 <= a < p.len() implies !is_key((#[trigger] p[a]).0, "manual"@) by {
                assert(!is_key(es[a].0, "manual"@));
            }
            assert(!is_key(es[es.len() - 1].0, "manual"@));
        }
    }
}

/// Each checklist of the top-level mapping that reads stands in the
/// document with its name.
proof fn lemma_entry_in_document(es: Seq<(Yaml, Yaml)>, a: int)
    requires
        checklists_of(es) is Some,
        0 <= a < es.len(),
        !is_key(es[a].0, "schema_version"@),
    ensures
        checklist_of(es[a].1) is Some,
        checklists_of(es)->Some_0.contains((str_text(es[a].0), checklist_of(es[a].1)->Some_0)),
    decreases es.len(),
{
    let p = es.drop_last();
    let d = checklists_of(es)->Some_0;
    let d0 = checklists_of(p)->Some_0;
    let entry = (str_text(es[a].0), checklist_of(es[a].1)->Some_0);
    if a == es.len() - 1 {
        assert(d == d0.push(entry));
        assert(d[d0.len() as int] == entry);
    } else {
        assert(p[a] == es[a]);
        lemma_entry_in_document(p, a);
        let k = choose|k: int| 0 <= k < d0.len() && d0[k] == entry;
        if !is_key(es.last().0, "schema_version"@) {
            assert(d[k] == d0[k]);
        }
    }
}

/// In a document that reads, each checklist is what its own mapping gives,
/// and a field that the mapping leaves out reads as empty.
pub proof fn absent_fields_read_as_empty_in_document(root: Yaml, a: int)
    requires
        document_of(root) is Ok,
        0 <= a < root->Dict_0@.len(),
        !is_key(root->Dict_0@[a].0, "schema_version"@),
    ensures
        root->Dict_0@[a].1 is Dict,
        fields_of(root->Dict_0@[a].1->Dict_0@) is Some,
        document_of(root)->Ok_0.contains(
            (str_text(root->Dict_0@[a].0), fields_of(root->Dict_0@[a].1->Dict_0@)->Some_0),
        ),
        lacks_key(root->Dict_0@[a].1->Dict_0@, "environment"@) ==> fields_of(
            root->Dict_0@[a].1->Dict_0@,
        )->Some_0.environment == Seq::<(Seq<char>, Seq<char>)>::empty(),
        lacks_key(root->Dict_0@[a].1->Dict_0@, "automated"@) ==> fields_of(
            root->Dict_0@[a].1->Dict_0@,
        )->Some_0.automated == Seq::<ExprView>::empty(),
        lacks_key(root->Dict_0@[a].1->Dict_0@, "manual"@) ==> fields_of(
            root->Dict_0@[a].1->Dict_0@,
        )->Some_0.manual == Seq::<Seq<char>>::empty(),
{
    lemma_entry_in_document(root->Dict_0@, a);
    absent_fields_read_as_empty(root->Dict_0@[a].1->Dict_0@);
}

} // verus!
