//! Crate-level laws: properties that relate several functions of this crate,
//! stated over the same spec models the functions' contracts use.

use crate::diagnostics::sub_floor;
use crate::harness::{
    harness_lines_model, harness_prefix, harness_suffix, join_nl, lemma_snippet_line_position,
    prefix_part_a, prefix_part_b, prefix_part_c, prefix_part_d, HARNESS_PREFIX_LINES,
};
use crate::json::json_parsed;
use crate::outcome::{decode_error_message, decode_ok, decode_value, TransformOutcome};
use crate::response::{compile_error_text, runtime_error_text};
use crate::text::{lemma_split_len, lines_of, split_char, strip_cr, strip_cr_all, trimmed};
use vstd::prelude::*;

verus! {

/// No character of `l` is a newline.
pub open spec fn no_newline(l: Seq<char>) -> bool {
    forall|i: int| 0 <= i < l.len() ==> l[i] != '\n'
}

/// `l` can stand as a line of a text: it holds no newline and does not end
/// in a carriage return, so joining lines and re-splitting the text gives
/// `l` back unchanged.
pub open spec fn clean_line(l: Seq<char>) -> bool {
    no_newline(l) && (l.len() == 0 || l[l.len() - 1] != '\r')
}

proof fn lemma_split_of_join_step(a: Seq<char>, t: Seq<char>)
    requires
        no_newline(a),
    ensures
        split_char(a + seq!['\n'] + t, '\n') == seq![a] + split_char(t, '\n'),
    decreases a.len(),
{
    let s = a + seq!['\n'] + t;
    if a.len() == 0 {
        assert(s[0] == '\n');
        assert(s.subrange(1, s.len() as int) =~= t);
        assert(a =~= Seq::<char>::empty());
        assert(split_char(s, '\n') =~= seq![a] + split_char(t, '\n'));
    } else {
        let a1 = a.subrange(1, a.len() as int);
        assert(s[0] == a[0]);
        assert(s[0] != '\n');
        let tail = s.subrange(1, s.len() as int);
        assert(tail =~= a1 + seq!['\n'] + t);
        assert(no_newline(a1));
        lemma_split_of_join_step(a1, t);
        let r = split_char(tail, '\n');
        lemma_split_len(t, '\n');
        assert(r[0] == a1);
        assert(seq![s[0]] + r[0] =~= a);
        assert(r.subrange(1, r.len() as int) =~= split_char(t, '\n'));
        assert(split_char(s, '\n') =~= seq![a] + split_char(t, '\n'));
    }
}

/// Joining lines and splitting the text again gives the lines back: the
/// round trip is exact for every list of clean lines.
pub proof fn lemma_lines_of_join(ls: Seq<Seq<char>>)
    requires
        forall|i: int| 0 <= i < ls.len() ==> clean_line(#[trigger] ls[i]),
    ensures
        lines_of(join_nl(ls)) == ls,
    decreases ls.len(),
{
    if ls.len() == 0 {
        assert(join_nl(ls) =~= Seq::<char>::empty());
        assert(lines_of(join_nl(ls)) =~= ls);
    } else {
        let l0 = ls[0];
        let rest = ls.subrange(1, ls.len() as int);
        let t = join_nl(rest);
        let s = l0 + seq!['\n'] + t;
        assert(join_nl(ls) == s);
        assert(clean_line(l0));
        lemma_split_of_join_step(l0, t);
        assert(forall|i: int| 0 <= i < rest.len() ==> clean_line(#[trigger] rest[i]));
        lemma_lines_of_join(rest);
        let p = split_char(s, '\n');
        let q = split_char(t, '\n');
        lemma_split_len(t, '\n');
        assert(p == seq![l0] + q);
        assert(p.len() == 1 + q.len());
        assert(s.len() > 0);
        let body_p = strip_cr_all(p.subrange(0, p.len() - 1));
        let body_q = strip_cr_all(q.subrange(0, q.len() - 1));
        assert(strip_cr(l0) == l0);
        assert(p.subrange(0, p.len() - 1) =~= seq![l0] + q.subrange(0, q.len() - 1));
        assert(body_p =~= seq![l0] + body_q);
        assert(p[p.len() - 1] == q[q.len() - 1]);
        assert(ls =~= seq![l0] + rest);
        if t.len() == 0 {
            if rest.len() > 0 {
                assert(join_nl(rest).len() > 0);
            }
            assert(rest =~= Seq::<Seq<char>>::empty());
            assert(q =~= seq![Seq::<char>::empty()]);
            assert(q.subrange(0, 0) =~= Seq::<Seq<char>>::empty());
            assert(body_p =~= seq![l0]);
            assert(lines_of(s) =~= ls);
        } else {
            assert(lines_of(t) == rest);
            if q[q.len() - 1].len() == 0 {
                assert(lines_of(t) == body_q);
                assert(lines_of(s) == body_p);
                assert(lines_of(s) =~= ls);
            } else {
                assert(lines_of(t) == body_q + seq![q[q.len() - 1]]);
                assert(lines_of(s) == body_p + seq![p[p.len() - 1]]);
                assert(lines_of(s) =~= ls);
            }
        }
    }
}

/// The line-adjustment law: in the rendered harness text, line
/// `HARNESS_PREFIX_LINES + k` (zero-based) is the snippet's own line `k`,
/// and the diagnostic adjustment maps the one-based absolute line
/// `HARNESS_PREFIX_LINES + k + 1` back to the snippet-relative `k + 1` — an
/// error on the snippet's first line is reported at line one, never at its
/// absolute position inside the harness.  Holds for snippets whose lines
/// are clean; a snippet whose last line ends in a stray carriage return has
/// that one character dropped by the rendering.
pub proof fn lemma_line_adjustment(snippet: Seq<Seq<char>>, k: int)
    requires
        0 <= k < snippet.len(),
        forall|i: int|
            0 <= i < harness_lines_model(snippet).len() ==> clean_line(
                #[trigger] harness_lines_model(snippet)[i],
            ),
        HARNESS_PREFIX_LINES + k + 1 <= usize::MAX,
    ensures
        lines_of(join_nl(harness_lines_model(snippet)))[HARNESS_PREFIX_LINES + k] == snippet[k],
        sub_floor((HARNESS_PREFIX_LINES + k + 1) as usize, HARNESS_PREFIX_LINES) == k + 1,
{
    lemma_lines_of_join(harness_lines_model(snippet));
    lemma_snippet_line_position(snippet, k);
}

/// The round-trip law: artifact output that is exactly the serialization of
/// a payload decodes back to that payload — to the discard signal when the
/// text is the discard token (the serialization of a null payload), and to
/// the very same value otherwise.  The hypotheses are what the serializer
/// guarantees of its output for a value within the reader's recursion limit
/// (every value the reader itself produced is one): it parses back to the
/// value and carries no surrounding whitespace.
pub proof fn lemma_round_trip(s: Seq<char>, v: serde_json::Value)
    ensures
        json_parsed(s) == Some(v) && trimmed(s) == s ==> decode_ok(s),
        json_parsed(s) == Some(v) && trimmed(s) == s && s != "null"@ ==> decode_value(s)
            == TransformOutcome::Event(v),
        json_parsed(s) == Some(v) && trimmed(s) == s && s == "null"@ ==> decode_value(s)
            is Discarded,
{
}

/// The idempotence law: every classification this crate makes is a function
/// of the captured compiler and artifact outputs alone, so a repeated
/// request with equal captured outputs receives equal response fields.
/// Workspace planning never branches: its contract pins all three planned
/// files as functions of the payload and the snippet, so equal requests
/// also hand the compiler equal workspaces.
pub proof fn lemma_decisions_deterministic(a: Seq<char>, b: Seq<char>)
    requires
        a == b,
    ensures
        compile_error_text(a) == compile_error_text(b),
        runtime_error_text(a) == runtime_error_text(b),
        decode_ok(a) == decode_ok(b),
        decode_value(a) == decode_value(b),
        decode_error_message(a) == decode_error_message(b),
        lines_of(a) == lines_of(b),
{
}

proof fn lemma_prefix_part_a_clean()
    ensures
        forall|i: int| 0 <= i < prefix_part_a().len() ==> clean_line(#[trigger] prefix_part_a()[i]),
{
    reveal_strlit("#![allow(unused_imports)]");
    reveal_strlit("#![allow(unused_variables)]");
    reveal_strlit("#![allow(unused_mut)]");
    reveal_strlit("");
    reveal_strlit("use serde_json::{json, Value};");
    reveal_strlit("");
    reveal_strlit("/// Result type that supports both event transforms and sample rates");
    reveal_strlit("enum TransformResult {");
    reveal_strlit("    Event(Option<Value>),");
    reveal_strlit("    SampleRate(f64),");
    reveal_strlit("}");
    reveal_strlit("");
    reveal_strlit("impl From<Option<Value>> for TransformResult {");
    reveal_strlit("    fn from(v: Option<Value>) -> Self {");
    reveal_strlit("        TransformResult::Event(v)");
    reveal_strlit("    }");
    assert(clean_line("#![allow(unused_imports)]"@));
    assert(clean_line("#![allow(unused_variables)]"@));
    assert(clean_line("#![allow(unused_mut)]"@));
    assert(clean_line(""@));
    assert(clean_line("use serde_json::{json, Value};"@));
    assert(clean_line(""@));
    assert(clean_line("/// Result type that supports both event transforms and sample rates"@));
    assert(clean_line("enum TransformResult {"@));
    assert(clean_line("    Event(Option<Value>),"@));
    assert(clean_line("    SampleRate(f64),"@));
    assert(clean_line("}"@));
    assert(clean_line(""@));
    assert(clean_line("impl From<Option<Value>> for TransformResult {"@));
    assert(clean_line("    fn from(v: Option<Value>) -> Self {"@));
    assert(clean_line("        TransformResult::Event(v)"@));
    assert(clean_line("    }"@));
    assert forall|i: int| 0 <= i < prefix_part_a().len() implies clean_line(#[trigger] prefix_part_a()[i]) by {}
}

proof fn lemma_prefix_part_b_clean()
    ensures
        forall|i: int| 0 <= i < prefix_part_b().len() ==> clean_line(#[trigger] prefix_part_b()[i]),
{
    reveal_strlit("}");
    reveal_strlit("");
    reveal_strlit("impl From<Value> for TransformResult {");
    reveal_strlit("    fn from(v: Value) -> Self {");
    reveal_strlit("        TransformResult::Event(Some(v))");
    reveal_strlit("    }");
    reveal_strlit("}");
    reveal_strlit("");
    reveal_strlit("impl From<f64> for TransformResult {");
    reveal_strlit("    fn from(v: f64) -> Self {");
    reveal_strlit("        TransformResult::SampleRate(v)");
    reveal_strlit("    }");
    reveal_strlit("}");
    reveal_strlit("");
    reveal_strlit("impl From<f32> for TransformResult {");
    reveal_strlit("    fn from(v: f32) -> Self {");
    assert(clean_line("}"@));
    assert(clean_line(""@));
    assert(clean_line("impl From<Value> for TransformResult {"@));
    assert(clean_line("    fn from(v: Value) -> Self {"@));
    assert(clean_line("        TransformResult::Event(Some(v))"@));
    assert(clean_line("    }"@));
    assert(clean_line("}"@));
    assert(clean_line(""@));
    assert(clean_line("impl From<f64> for TransformResult {"@));
    assert(clean_line("    fn from(v: f64) -> Self {"@));
    assert(clean_line("        TransformResult::SampleRate(v)"@));
    assert(clean_line("    }"@));
    assert(clean_line("}"@));
    assert(clean_line(""@));
    assert(clean_line("impl From<f32> for TransformResult {"@));
    assert(clean_line("    fn from(v: f32) -> Self {"@));
    assert forall|i: int| 0 <= i < prefix_part_b().len() implies clean_line(#[trigger] prefix_part_b()[i]) by {}
}

proof fn lemma_prefix_part_c_clean()
    ensures
        forall|i: int| 0 <= i < prefix_part_c().len() ==> clean_line(#[trigger] prefix_part_c()[i]),
{
    reveal_strlit("        TransformResult::SampleRate(v as f64)");
    reveal_strlit("    }");
    reveal_strlit("}");
    reveal_strlit("");
    reveal_strlit("impl From<i32> for TransformResult {");
    reveal_strlit("    fn from(v: i32) -> Self {");
    reveal_strlit("        TransformResult::SampleRate(v as f64)");
    reveal_strlit("    }");
    reveal_strlit("}");
    reveal_strlit("");
    reveal_strlit("impl From<i64> for TransformResult {");
    reveal_strlit("    fn from(v: i64) -> Self {");
    reveal_strlit("        TransformResult::SampleRate(v as f64)");
    reveal_strlit("    }");
    reveal_strlit("}");
    reveal_strlit("");
    assert(clean_line("        TransformResult::SampleRate(v as f64)"@));
    assert(clean_line("    }"@));
    assert(clean_line("}"@));
    assert(clean_line(""@));
    assert(clean_line("impl From<i32> for TransformResult {"@));
    assert(clean_line("    fn from(v: i32) -> Self {"@));
    assert(clean_line("        TransformResult::SampleRate(v as f64)"@));
    assert(clean_line("    }"@));
    assert(clean_line("}"@));
    assert(clean_line(""@));
    assert(clean_line("impl From<i64> for TransformResult {"@));
    assert(clean_line("    fn from(v: i64) -> Self {"@));
    assert(clean_line("        TransformResult::SampleRate(v as f64)"@));
    assert(clean_line("    }"@));
    assert(clean_line("}"@));
    assert(clean_line(""@));
    assert forall|i: int| 0 <= i < prefix_part_c().len() implies clean_line(#[trigger] prefix_part_c()[i]) by {}
}

proof fn lemma_prefix_part_d_clean()
    ensures
        forall|i: int| 0 <= i < prefix_part_d().len() ==> clean_line(#[trigger] prefix_part_d()[i]),
{
    reveal_strlit("impl From<()> for TransformResult {");
    reveal_strlit("    fn from(_: ()) -> Self {");
    reveal_strlit("        TransformResult::Event(None)");
    reveal_strlit("    }");
    reveal_strlit("}");
    reveal_strlit("");
    reveal_strlit("fn main() {");
    reveal_strlit("    // Read event from file (avoids string escaping issues)");
    reveal_strlit(r#"    let event_json = std::fs::read_to_string("event.json").expect("Failed to read event.json");"#);
    reveal_strlit(r#"    let mut event: Value = serde_json::from_str(&event_json).expect("Failed to parse event JSON");"#);
    reveal_strlit("");
    reveal_strlit("    // Execute user's code and convert result to TransformResult");
    reveal_strlit("    // The .into() call handles type conversion automatically");
    reveal_strlit("    let result: TransformResult = (|| {");
    assert(clean_line("impl From<()> for TransformResult {"@));
    assert(clean_line("    fn from(_: ()) -> Self {"@));
    assert(clean_line("        TransformResult::Event(None)"@));
    assert(clean_line("    }"@));
    assert(clean_line("}"@));
    assert(clean_line(""@));
    assert(clean_line("fn main() {"@));
    assert(clean_line("    // Read event from file (avoids string escaping issues)"@));
    assert(clean_line(r#"    let event_json = std::fs::read_to_string("event.json").expect("Failed to read event.json");"#@));
    assert(clean_line(r#"    let mut event: Value = serde_json::from_str(&event_json).expect("Failed to parse event JSON");"#@));
    assert(clean_line(""@));
    assert(clean_line("    // Execute user's code and convert result to TransformResult"@));
    assert(clean_line("    // The .into() call handles type conversion automatically"@));
    assert(clean_line("    let result: TransformResult = (|| {"@));
    assert forall|i: int| 0 <= i < prefix_part_d().len() implies clean_line(#[trigger] prefix_part_d()[i]) by {}
}

proof fn lemma_harness_suffix_clean()
    ensures
        forall|i: int| 0 <= i < harness_suffix().len() ==> clean_line(#[trigger] harness_suffix()[i]),
{
    reveal_strlit("    })().into();");
    reveal_strlit("");
    reveal_strlit("    // Output result as JSON");
    reveal_strlit("    match result {");
    reveal_strlit("        TransformResult::Event(Some(transformed)) => {");
    reveal_strlit(r#"            println!("{}", serde_json::to_string(&transformed).unwrap());"#);
    reveal_strlit("        }");
    reveal_strlit("        TransformResult::Event(None) => {");
    reveal_strlit(r#"            println!("null");"#);
    reveal_strlit("        }");
    reveal_strlit("        TransformResult::SampleRate(rate) => {");
    reveal_strlit(r#"            println!("{}", rate);"#);
    reveal_strlit("        }");
    reveal_strlit("    }");
    reveal_strlit("}");
    assert(clean_line("    })().into();"@));
    assert(clean_line(""@));
    assert(clean_line("    // Output result as JSON"@));
    assert(clean_line("    match result {"@));
    assert(clean_line("        TransformResult::Event(Some(transformed)) => {"@));
    assert(clean_line(r#"            println!("{}", serde_json::to_string(&transformed).unwrap());"#@));
    assert(clean_line("        }"@));
    assert(clean_line("        TransformResult::Event(None) => {"@));
    assert(clean_line(r#"            println!("null");"#@));
    assert(clean_line("        }"@));
    assert(clean_line("        TransformResult::SampleRate(rate) => {"@));
    assert(clean_line(r#"            println!("{}", rate);"#@));
    assert(clean_line("        }"@));
    assert(clean_line("    }"@));
    assert(clean_line("}"@));
    assert forall|i: int| 0 <= i < harness_suffix().len() implies clean_line(#[trigger] harness_suffix()[i]) by {}
}

/// Every line of the fixed template is clean: the rendered harness splits
/// back into exactly the template lines around the snippet.
pub proof fn lemma_template_lines_clean()
    ensures
        forall|i: int| 0 <= i < harness_prefix().len() ==> clean_line(
            #[trigger] harness_prefix()[i],
        ),
        forall|i: int| 0 <= i < harness_suffix().len() ==> clean_line(
            #[trigger] harness_suffix()[i],
        ),
{
    lemma_prefix_part_a_clean();
    lemma_prefix_part_b_clean();
    lemma_prefix_part_c_clean();
    lemma_prefix_part_d_clean();
    lemma_harness_suffix_clean();
    assert forall|i: int| 0 <= i < harness_prefix().len() implies clean_line(
        #[trigger] harness_prefix()[i],
    ) by {
        let a = prefix_part_a();
        let b = prefix_part_b();
        let c = prefix_part_c();
        let d = prefix_part_d();
        if i < a.len() {
            assert(harness_prefix()[i] == a[i]);
        } else if i < a.len() + b.len() {
            assert(harness_prefix()[i] == b[i - a.len()]);
        } else if i < a.len() + b.len() + c.len() {
            assert(harness_prefix()[i] == c[i - a.len() - b.len()]);
        } else {
            assert(harness_prefix()[i] == d[i - a.len() - b.len() - c.len()]);
        }
    }
}

/// The line-adjustment law, with the template's side discharged: for a
/// snippet whose own lines are clean, line `HARNESS_PREFIX_LINES + k`
/// (zero-based) of the rendered harness text is the snippet's line `k`, and
/// the diagnostic adjustment maps the one-based absolute line back to the
/// snippet-relative one.
pub proof fn lemma_rendered_line_of_snippet(snippet: Seq<Seq<char>>, k: int)
    requires
        0 <= k < snippet.len(),
        forall|i: int| 0 <= i < snippet.len() ==> clean_line(#[trigger] snippet[i]),
        HARNESS_PREFIX_LINES + k + 1 <= usize::MAX,
    ensures
        lines_of(join_nl(harness_lines_model(snippet)))[HARNESS_PREFIX_LINES + k] == snippet[k],
        sub_floor((HARNESS_PREFIX_LINES + k + 1) as usize, HARNESS_PREFIX_LINES) == k + 1,
{
    lemma_template_lines_clean();
    let model = harness_lines_model(snippet);
    assert forall|i: int| 0 <= i < model.len() implies clean_line(#[trigger] model[i]) by {
        let p = harness_prefix();
        let s = harness_suffix();
        if i < p.len() {
            assert(model[i] == p[i]);
        } else if i < p.len() + snippet.len() {
            assert(model[i] == snippet[i - p.len()]);
        } else {
            assert(model[i] == s[i - p.len() - snippet.len()]);
        }
    }
    lemma_line_adjustment(snippet, k);
}

} // verus!
