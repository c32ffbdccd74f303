//! Writing a checklist document back out as a YAML tree.

use vstd::prelude::*;

use crate::model::{
    document_wf, variables_distinct, entry_view, expr_view, pair_view, text_view, CheckExpr, Checklist, ChecklistDocument,
    DocumentView,
};
use crate::schema::{
    starlark_entry, is_key, automated_of, checklist_of, checklists_of, document_of, environment_of, expr_of, fields_of,
    keys_ok, manual_of, str_text, supported_version, SCHEMA_VERSION,
};
use crate::yaml::Yaml;

verus! {

/// Writes one automated entry.
fn expr_to_yaml(e: &CheckExpr) -> (r: Yaml)
    ensures
        expr_of(r) == Some(e@),
{
    match e {
        CheckExpr::Literal(s) => Yaml::Str(s.clone()),
        CheckExpr::Script(src) => {
            let entries = vec![(Yaml::Str("starlark".to_owned()), Yaml::Str(src.clone()))];
            assert(starlark_entry(entries@, 0));
            assert(keys_ok(entries@));
            assert forall|a: int| starlark_entry(entries@, a) implies a == 0 by {}
            Yaml::Dict(entries)
        },
    }
}

/// Writes the `manual` field.
fn manual_to_yaml(v: &Vec<String>) -> (r: Yaml)
    ensures
        manual_of(r) == Some(v@.map_values(|s: String| text_view(s))),
{
    let mut out: Vec<Yaml> = Vec::new();
    let mut i: usize = 0;
    while i < v.len()
        invariant
            i <= v@.len(),
            out@.len() == i,
            forall|a: int| 0 <= a < i ==> (#[trigger] out@[a]) is Str && str_text(out@[a]) == v@[a]@,
        decreases v@.len() - i,
    {
        out.push(Yaml::Str(v[i].clone()));
        i += 1;
    }
    let r = Yaml::List(out);
    assert(out@.map_values(|x: Yaml| str_text(x)) =~= v@.map_values(|s: String| text_view(s)));
    r
}

/// Writes the `automated` field.
fn automated_to_yaml(v: &Vec<CheckExpr>) -> (r: Yaml)
    ensures
        automated_of(r) == Some(v@.map_values(|e: CheckExpr| expr_view(e))),
{
    let mut out: Vec<Yaml> = Vec::new();
    let mut i: usize = 0;
    while i < v.len()
        invariant
            i <= v@.len(),
            out@.len() == i,
            forall|a: int| 0 <= a < i ==> expr_of(#[trigger] out@[a]) == Some(v@[a]@),
        decreases v@.len() - i,
    {
        out.push(expr_to_yaml(&v[i]));
        i += 1;
    }
    let r = Yaml::List(out);
    assert(out@.map_values(|x: Yaml| crate::schema::expr_found(x)) =~= v@.map_values(
        |e: CheckExpr| expr_view(e),
    ));
    r
}

/// Writes the `environment` field.
fn environment_to_yaml(v: &Vec<(String, String)>) -> (r: Yaml)
    requires
        variables_distinct(v@.map_values(|p: (String, String)| pair_view(p))),
    ensures
        environment_of(r) == Some(v@.map_values(|p: (String, String)| pair_view(p))),
{
    let ghost env = v@.map_values(|p: (String, String)| pair_view(p));
    let mut out: Vec<(Yaml, Yaml)> = Vec::new();
    let mut i: usize = 0;
    while i < v.len()
        invariant
            env == v@.map_values(|p: (String, String)| pair_view(p)),
            variables_distinct(env),
            i <= v@.len(),
            out@.len() == i,
            forall|a: int|
                0 <= a < i ==> (#[trigger] out@[a]).0 is Str && out@[a].1 is Str && str_text(
                    out@[a].0,
                ) == env[a].0 && str_text(out@[a].1) == env[a].1,
        decreases v@.len() - i,
    {
        out.push((Yaml::Str(v[i].0.clone()), Yaml::Str(v[i].1.clone())));
        i += 1;
    }
    assert forall|a: int, b: int|
        #![trigger out@[a], out@[b]]
        0 <= a < b < out@.len() implies str_text(out@[a].0) != str_text(out@[b].0) by {
        assert(env[a].0 != env[b].0);
    }
    assert(keys_ok(out@));
    let r = Yaml::Dict(out);
    assert(out@.map_values(|e: (Yaml, Yaml)| crate::schema::str_pair(e)) =~= env);
    r
}

/// Writes one checklist with all three of its fields.
fn checklist_to_yaml(c: &Checklist) -> (r: Yaml)
    requires
        variables_distinct(c@.environment),
    ensures
        checklist_of(r) == Some(c@),
{
    let environment = environment_to_yaml(&c.environment);
    let automated = automated_to_yaml(&c.automated);
    let manual = manual_to_yaml(&c.manual);
    let fields = vec![
        (Yaml::Str("environment".to_owned()), environment),
        (Yaml::Str("automated".to_owned()), automated),
        (Yaml::Str("manual".to_owned()), manual),
    ];
    proof {
        reveal_strlit("environment");
        reveal_strlit("automated");
        reveal_strlit("manual");
        assert("environment"@[0] != "automated"@[0]);
        assert("environment"@[0] != "manual"@[0]);
        assert("automated"@[0] != "manual"@[0]);
        let es = fields@;
        assert(keys_ok(es));
        assert(es.subrange(0, 0) =~= es.subrange(0, 1).drop_last());
        assert(es.subrange(0, 1) =~= es.subrange(0, 2).drop_last());
        assert(es.subrange(0, 2) =~= es.subrange(0, 3).drop_last());
        assert(es.subrange(0, 3) =~= es);
        assert(fields_of(es.subrange(0, 0)) is Some);
        assert(fields_of(es.subrange(0, 1)) is Some);
        assert(fields_of(es.subrange(0, 2)) is Some);
        assert(fields_of(es) =~= Some(c@));
    }
    Yaml::Dict(fields)
}

impl ChecklistDocument {
    /// The YAML tree of this document under the supported schema version:
    /// reading it back gives this document.
    pub fn to_yaml(&self) -> (r: Yaml)
        requires
            document_wf(self@),
        ensures
            document_of(r) == Ok::<DocumentView, crate::schema::LoadFailure>(self@),
    {
        let mut out: Vec<(Yaml, Yaml)> = vec![
            (Yaml::Str("schema_version".to_owned()), Yaml::Int(SCHEMA_VERSION)),
        ];
        assert(out@.drop_last() =~= Seq::<(Yaml, Yaml)>::empty());
        assert(is_key(out@.last().0, "schema_version"@));
        assert(checklists_of(out@.drop_last()) == Some(Seq::<(Seq<char>, crate::model::ChecklistView)>::empty()));
        assert(self@.subrange(0, 0) =~= Seq::<(Seq<char>, crate::model::ChecklistView)>::empty());
        let mut i: usize = 0;
        while i < self.checklists.len()
            invariant
                document_wf(self@),
                self@.len() == self.checklists@.len(),
                i <= self@.len(),
                out@.len() == i + 1,
                is_key(out@[0].0, "schema_version"@),
                out@[0].1 == Yaml::Int(SCHEMA_VERSION),
                forall|a: int| 0 <= a < out@.len() ==> (#[trigger] out@[a]).0 is Str,
                forall|a: int| 0 < a < out@.len() ==> str_text((#[trigger] out@[a]).0) == self@[a - 1].0,
                keys_ok(out@),
                checklists_of(out@) == Some(self@.subrange(0, i as int)),
            decreases self@.len() - i,
        {
            assert(self@[i as int] == entry_view(self.checklists@[i as int]));
            assert(variables_distinct(self@[i as int].1.environment));
            let name = self.checklists[i].0.clone();
            let c = checklist_to_yaml(&self.checklists[i].1);
            let ghost before = out@;
            out.push((Yaml::Str(name), c));
            assert(out@.drop_last() =~= before);
            assert(self@.subrange(0, i + 1) =~= self@.subrange(0, i as int).push(self@[i as int]));
            assert forall|a: int, b: int|
                #![trigger out@[a], out@[b]]
                0 <= a < b < out@.len() implies str_text(out@[a].0) != str_text(out@[b].0) by {
                if b == out@.len() - 1 {
                    if a > 0 {
                        assert(self@[a - 1].0 != self@[b - 1].0);
                    } else {
                        assert(self@[b - 1].0 != "schema_version"@);
                    }
                }
            }
            i += 1;
        }
        assert(self@.subrange(0, self@.len() as int) =~= self@);
        assert(supported_version(out@));
        Yaml::Dict(out)
    }
}

/// The variables that reading gives have distinct names.
proof fn lemma_environment_distinct(v: Yaml)
    requires
        environment_of(v) is Some,
    ensures
        variables_distinct(environment_of(v)->Some_0),
{
    let es = v->Dict_0@;
    let env = environment_of(v)->Some_0;
    assert forall|a: int, b: int| 0 <= a < b < env.len() implies #[trigger] env[a].0
        != #[trigger] env[b].0 by {
        assert(str_text(es[a].0) != str_text(es[b].0));
    }
}

/// So do those of a checklist read field by field.
proof fn lemma_fields_environment_distinct(es: Seq<(Yaml, Yaml)>)
    requires
        fields_of(es) is Some,
    ensures
        variables_distinct(fields_of(es)->Some_0.environment),
    decreases es.len(),
{
    if es.len() > 0 {
        let p = es.drop_last();
        lemma_fields_environment_distinct(p);
        if is_key(es.last().0, "environment"@) {
            lemma_environment_distinct(es.last().1);
        }
    }
}

/// The checklists read from a mapping meet `document_wf`, each named
/// after a key of the mapping.
proof fn lemma_checklists_wf(es: Seq<(Yaml, Yaml)>)
    requires
        keys_ok(es),
        checklists_of(es) is Some,
    ensures
        document_wf(checklists_of(es)->Some_0),
        forall|k: int|
            0 <= k < checklists_of(es)->Some_0.len() ==> exists|a: int|
                0 <= a < es.len() && str_text(#[trigger] es[a].0) == (
                #[trigger] checklists_of(es)->Some_0[k]).0,
    decreases es.len(),
{
    if es.len() > 0 {
        let p = es.drop_last();
        let n = es.len() - 1;
        assert forall|a: int| 0 <= a < p.len() implies #[trigger] p[a] == es[a] by {}
        assert(keys_ok(p)) by {
            assert forall|a: int, b: int|
                #![trigger p[a], p[b]]
                0 <= a < b < p.len() implies str_text(p[a].0) != str_text(p[b].0) by {
                assert(str_text(es[a].0) != str_text(es[b].0));
            }
        }
        lemma_checklists_wf(p);
        let d0 = checklists_of(p)->Some_0;
        let d = checklists_of(es)->Some_0;
        if !is_key(es.last().0, "schema_version"@) {
            let c = checklist_of(es.last().1)->Some_0;
            assert(d == d0.push((str_text(es.last().0), c)));
            assert(es[n].0 is Str);
            assert forall|k: int| 0 <= k < d0.len() implies #[trigger] d[k].0 != d[d0.len() as int].0 by {
                assert(d[k] == d0[k]);
                let a = choose|a: int| 0 <= a < p.len() && str_text(#[trigger] p[a].0) == d0[k].0;
                assert(str_text(es[a].0) != str_text(es[n].0));
            }
            assert forall|k1: int, k2: int| 0 <= k1 < k2 < d.len() implies #[trigger] d[k1].0
                != #[trigger] d[k2].0 by {
                if k2 < d0.len() {
                    assert(d[k1] == d0[k1] && d[k2] == d0[k2]);
                }
            }
            assert forall|k: int| 0 <= k < d.len() implies (#[trigger] d[k]).0 != "schema_version"@ by {
                if k < d0.len() {
                    assert(d[k] == d0[k]);
                }
            }
            assert forall|k: int| 0 <= k < d.len() implies variables_distinct(
                (#[trigger] d[k]).1.environment,
            ) by {
                if k < d0.len() {
                    assert(d[k] == d0[k]);
                } else {
                    lemma_fields_environment_distinct(es.last().1->Dict_0@);
                }
            }
            assert forall|k: int| 0 <= k < d.len() implies exists|a: int|
                0 <= a < es.len() && str_text(#[trigger] es[a].0) == (#[trigger] d[k]).0 by {
                if k < d0.len() {
                    assert(d[k] == d0[k]);
                    let a = choose|a: int| 0 <= a < p.len() && str_text(#[trigger] p[a].0) == d0[k].0;
                    assert(str_text(es[a].0) == d[k].0);
                } else {
                    assert(str_text(es[n].0) == d[k].0);
                }
            }
        } else {
            assert forall|k: int| 0 <= k < d.len() implies exists|a: int|
                0 <= a < es.len() && str_text(#[trigger] es[a].0) == (#[trigger] d[k]).0 by {
                let a = choose|a: int| 0 <= a < p.len() && str_text(#[trigger] p[a].0) == d0[k].0;
                assert(str_text(es[a].0) == d[k].0);
            }
        }
    }
}

/// Every document that reading accepts can be written out again, and
/// reading what `to_yaml` writes gives that same document back.
pub proof fn read_documents_write_back(root: Yaml)
    requires
        document_of(root) is Ok,
    ensures
        document_wf(document_of(root)->Ok_0),
{
    lemma_checklists_wf(root->Dict_0@);
}

} // verus!
