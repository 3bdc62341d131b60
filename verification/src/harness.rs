//! Harness generation: a caller's snippet is embedded, unaltered, at a fixed
//! hole in a complete program template.  Everything before the hole is a
//! fixed, line-counted prefix, so a diagnostic at absolute line
//! `HARNESS_PREFIX_LINES + k` of the rendered program points at line `k` of
//! the snippet.  If the template ever changes, `HARNESS_PREFIX_LINES` must
//! change with it; the proofs here pin the two together.
//!
//! The template reads the payload from a well-known file in the workspace
//! (never interpolated into source text), binds it to one variable, runs the
//! snippet as a closure, and coerces the result through a small conversion
//! layer that accepts both calling conventions: an event value (kept,
//! modified or dropped) or a numeric sample rate.

use crate::text::{lines_of, split_lines};
use vstd::prelude::*;
use vstd::string::*;

verus! {

/// Number of template lines that precede the snippet in the rendered program.
pub const HARNESS_PREFIX_LINES: usize = 62;

pub open spec fn prefix_part_a() -> Seq<Seq<char>> {
    seq![
        "#![allow(unused_imports)]"@,
        "#![allow(unused_variables)]"@,
        "#![allow(unused_mut)]"@,
        ""@,
        "use serde_json::{json, Value};"@,
        ""@,
        "/// Result type that supports both event transforms and sample rates"@,
        "enum TransformResult {"@,
        "    Event(Option<Value>),"@,
        "    SampleRate(f64),"@,
        "}"@,
        ""@,
        "impl From<Option<Value>> for TransformResult {"@,
        "    fn from(v: Option<Value>) -> Self {"@,
        "        TransformResult::Event(v)"@,
        "    }"@,
    ]
}

pub open spec fn prefix_part_b() -> Seq<Seq<char>> {
    seq![
        "}"@,
        ""@,
        "impl From<Value> for TransformResult {"@,
        "    fn from(v: Value) -> Self {"@,
        "        TransformResult::Event(Some(v))"@,
        "    }"@,
        "}"@,
        ""@,
        "impl From<f64> for TransformResult {"@,
        "    fn from(v: f64) -> Self {"@,
        "        TransformResult::SampleRate(v)"@,
        "    }"@,
        "}"@,
        ""@,
        "impl From<f32> for TransformResult {"@,
        "    fn from(v: f32) -> Self {"@,
    ]
}

pub open spec fn prefix_part_c() -> Seq<Seq<char>> {
    seq![
        "        TransformResult::SampleRate(v as f64)"@,
        "    }"@,
        "}"@,
        ""@,
        "impl From<i32> for TransformResult {"@,
        "    fn from(v: i32) -> Self {"@,
        "        TransformResult::SampleRate(v as f64)"@,
        "    }"@,
        "}"@,
        ""@,
        "impl From<i64> for TransformResult {"@,
        "    fn from(v: i64) -> Self {"@,
        "        TransformResult::SampleRate(v as f64)"@,
        "    }"@,
        "}"@,
        ""@,
    ]
}

pub open spec fn prefix_part_d() -> Seq<Seq<char>> {
    seq![
        "impl From<()> for TransformResult {"@,
        "    fn from(_: ()) -> Self {"@,
        "        TransformResult::Event(None)"@,
        "    }"@,
        "}"@,
        ""@,
        "fn main() {"@,
        "    // Read event from file (avoids string escaping issues)"@,
        r#"    let event_json = std::fs::read_to_string("event.json").expect("Failed to read event.json");"#@,
        r#"    let mut event: Value = serde_json::from_str(&event_json).expect("Failed to parse event JSON");"#@,
        ""@,
        "    // Execute user's code and convert result to TransformResult"@,
        "    // The .into() call handles type conversion automatically"@,
        "    let result: TransformResult = (|| {"@,
    ]
}

/// The fixed template lines before the snippet hole.
pub open spec fn harness_prefix() -> Seq<Seq<char>> {
    prefix_part_a() + prefix_part_b() + prefix_part_c() + prefix_part_d()
}

/// The fixed template lines after the snippet hole.
pub open spec fn harness_suffix() -> Seq<Seq<char>> {
    seq![
        "    })().into();"@,
        ""@,
        "    // Output result as JSON"@,
        "    match result {"@,
        "        TransformResult::Event(Some(transformed)) => {"@,
        r#"            println!("{}", serde_json::to_string(&transformed).unwrap());"#@,
        "        }"@,
        "        TransformResult::Event(None) => {"@,
        r#"            println!("null");"#@,
        "        }"@,
        "        TransformResult::SampleRate(rate) => {"@,
        r#"            println!("{}", rate);"#@,
        "        }"@,
        "    }"@,
        "}"@,
    ]
}

/// The prefix-length constant names exactly the number of fixed lines before
/// the snippet hole.
pub proof fn lemma_prefix_count()
    ensures
        harness_prefix().len() == HARNESS_PREFIX_LINES as int,
{
}

fn prefix_lines_a() -> (r: Vec<&'static str>)
    ensures
        r.deep_view() == prefix_part_a(),
{
    let mut v: Vec<&'static str> = Vec::new();
    v.push("#![allow(unused_imports)]");
    v.push("#![allow(unused_variables)]");
    v.push("#![allow(unused_mut)]");
    v.push("");
    v.push("use serde_json::{json, Value};");
    v.push("");
    v.push("/// Result type that supports both event transforms and sample rates");
    v.push("enum TransformResult {");
    v.push("    Event(Option<Value>),");
    v.push("    SampleRate(f64),");
    v.push("}");
    v.push("");
    v.push("impl From<Option<Value>> for TransformResult {");
    v.push("    fn from(v: Option<Value>) -> Self {");
    v.push("        TransformResult::Event(v)");
    v.push("    }");
    proof {
        assert(v.deep_view() =~~= prefix_part_a());
    }
    v
}

fn prefix_lines_b() -> (r: Vec<&'static str>)
    ensures
        r.deep_view() == prefix_part_b(),
{
    let mut v: Vec<&'static str> = Vec::new();
    v.push("}");
    v.push("");
    v.push("impl From<Value> for TransformResult {");
    v.push("    fn from(v: Value) -> Self {");
    v.push("        TransformResult::Event(Some(v))");
    v.push("    }");
    v.push("}");
    v.push("");
    v.push("impl From<f64> for TransformResult {");
    v.push("    fn from(v: f64) -> Self {");
    v.push("        TransformResult::SampleRate(v)");
    v.push("    }");
    v.push("}");
    v.push("");
    v.push("impl From<f32> for TransformResult {");
    v.push("    fn from(v: f32) -> Self {");
    proof {
        assert(v.deep_view() =~~= prefix_part_b());
    }
    v
}

fn prefix_lines_c() -> (r: Vec<&'static str>)
    ensures
        r.deep_view() == prefix_part_c(),
{
    let mut v: Vec<&'static str> = Vec::new();
    v.push("        TransformResult::SampleRate(v as f64)");
    v.push("    }");
    v.push("}");
    v.push("");
    v.push("impl From<i32> for TransformResult {");
    v.push("    fn from(v: i32) -> Self {");
    v.push("        TransformResult::SampleRate(v as f64)");
    v.push("    }");
    v.push("}");
    v.push("");
    v.push("impl From<i64> for TransformResult {");
    v.push("    fn from(v: i64) -> Self {");
    v.push("        TransformResult::SampleRate(v as f64)");
    v.push("    }");
    v.push("}");
    v.push("");
    proof {
        assert(v.deep_view() =~~= prefix_part_c());
    }
    v
}

fn prefix_lines_d() -> (r: Vec<&'static str>)
    ensures
        r.deep_view() == prefix_part_d(),
{
    let mut v: Vec<&'static str> = Vec::new();
    v.push("impl From<()> for TransformResult {");
    v.push("    fn from(_: ()) -> Self {");
    v.push("        TransformResult::Event(None)");
    v.push("    }");
    v.push("}");
    v.push("");
    v.push("fn main() {");
    v.push("    // Read event from file (avoids string escaping issues)");
    v.push(r#"    let event_json = std::fs::read_to_string("event.json").expect("Failed to read event.json");"#);
    v.push(r#"    let mut event: Value = serde_json::from_str(&event_json).expect("Failed to parse event JSON");"#);
    v.push("");
    v.push("    // Execute user's code and convert result to TransformResult");
    v.push("    // The .into() call handles type conversion automatically");
    v.push("    let result: TransformResult = (|| {");
    proof {
        assert(v.deep_view() =~~= prefix_part_d());
    }
    v
}

/// The fixed template lines before the snippet hole.
pub fn harness_prefix_lines() -> (r: Vec<&'static str>)
    ensures
        r.deep_view() == harness_prefix(),
{
    let mut v = prefix_lines_a();
    let mut b = prefix_lines_b();
    let mut c = prefix_lines_c();
    let mut d = prefix_lines_d();
    v.append(&mut b);
    v.append(&mut c);
    v.append(&mut d);
    proof {
        assert(v.deep_view() =~~= harness_prefix());
    }
    v
}

/// The fixed template lines after the snippet hole.
pub fn harness_suffix_lines() -> (r: Vec<&'static str>)
    ensures
        r.deep_view() == harness_suffix(),
{
    let mut v: Vec<&'static str> = Vec::new();
    v.push("    })().into();");
    v.push("");
    v.push("    // Output result as JSON");
    v.push("    match result {");
    v.push("        TransformResult::Event(Some(transformed)) => {");
    v.push(r#"            println!("{}", serde_json::to_string(&transformed).unwrap());"#);
    v.push("        }");
    v.push("        TransformResult::Event(None) => {");
    v.push(r#"            println!("null");"#);
    v.push("        }");
    v.push("        TransformResult::SampleRate(rate) => {");
    v.push(r#"            println!("{}", rate);"#);
    v.push("        }");
    v.push("    }");
    v.push("}");
    proof {
        assert(v.deep_view() =~~= harness_suffix());
    }
    v
}

/// All lines of the rendered harness: fixed prefix, the snippet's own lines,
/// fixed suffix.
pub open spec fn harness_lines_model(snippet: Seq<Seq<char>>) -> Seq<Seq<char>> {
    harness_prefix() + snippet + harness_suffix()
}

/// Line `k` of the snippet stands at line `HARNESS_PREFIX_LINES + k` of the
/// harness: the injected boilerplate shifts every snippet line by exactly the
/// prefix length.
pub proof fn lemma_snippet_line_position(snippet: Seq<Seq<char>>, k: int)
    requires
        0 <= k < snippet.len(),
    ensures
        harness_lines_model(snippet)[HARNESS_PREFIX_LINES + k] == snippet[k],
{
    lemma_prefix_count();
}

/// The lines of the harness for `snippet`, in order.
pub fn harness_lines(snippet: &str) -> (r: Vec<String>)
    ensures
        r.deep_view() == harness_lines_model(lines_of(snippet@)),
{
    let mut r: Vec<String> = Vec::new();
    let pre = harness_prefix_lines();
    let mut i: usize = 0;
    while i < pre.len()
        invariant
            0 <= i <= pre.len(),
            pre.deep_view() == harness_prefix(),
            r@.len() == i,
            forall|j: int| 0 <= j < i ==> r@[j]@ == #[trigger] pre.deep_view()[j],
        decreases pre.len() - i,
    {
        proof {
            assert(pre.deep_view()[i as int] == pre@[i as int]@);
        }
        r.push(String::from_str(pre[i]));
        i = i + 1;
    }
    let sn = split_lines(snippet);
    let mut k: usize = 0;
    while k < sn.len()
        invariant
            0 <= k <= sn.len(),
            sn.deep_view() == lines_of(snippet@),
            pre.deep_view() == harness_prefix(),
            r@.len() == pre@.len() + k,
            forall|j: int| 0 <= j < pre@.len() ==> r@[j]@ == #[trigger] pre.deep_view()[j],
            forall|j: int|
                0 <= j < k ==> r@[pre@.len() + j]@ == #[trigger] sn.deep_view()[j],
        decreases sn.len() - k,
    {
        proof {
            assert(sn.deep_view()[k as int] == sn@[k as int]@);
        }
        r.push(sn[k].clone());
        k = k + 1;
    }
    let suf = harness_suffix_lines();
    let mut m: usize = 0;
    while m < suf.len()
        invariant
            0 <= m <= suf.len(),
            sn.deep_view() == lines_of(snippet@),
            pre.deep_view() == harness_prefix(),
            suf.deep_view() == harness_suffix(),
            r@.len() == pre@.len() + sn@.len() + m,
            forall|j: int| 0 <= j < pre@.len() ==> r@[j]@ == #[trigger] pre.deep_view()[j],
            forall|j: int|
                0 <= j < sn@.len() ==> r@[pre@.len() + j]@ == #[trigger] sn.deep_view()[j],
            forall|j: int|
                0 <= j < m ==> r@[pre@.len() + sn@.len() + j]@ == #[trigger] suf.deep_view()[j],
        decreases suf.len() - m,
    {
        proof {
            assert(suf.deep_view()[m as int] == suf@[m as int]@);
        }
        r.push(String::from_str(suf[m]));
        m = m + 1;
    }
    proof {
        let model = harness_lines_model(lines_of(snippet@));
        assert forall|j: int| 0 <= j < r@.len() implies r.deep_view()[j] == model[j] by {
            assert(r.deep_view()[j] == r@[j]@);
        }
        assert(r.deep_view() =~= model);
    }
    r
}

/// The lines joined into one text, each line followed by a newline.
pub open spec fn join_nl(ls: Seq<Seq<char>>) -> Seq<char>
    decreases ls.len(),
{
    if ls.len() == 0 {
        Seq::empty()
    } else {
        ls[0] + seq!['\n'] + join_nl(ls.subrange(1, ls.len() as int))
    }
}

/// Joining distributes over concatenation of line lists.
pub proof fn lemma_join_concat(a: Seq<Seq<char>>, b: Seq<Seq<char>>)
    ensures
        join_nl(a + b) == join_nl(a) + join_nl(b),
    decreases a.len(),
{
    if a.len() == 0 {
        assert(a + b =~= b);
        assert(join_nl(a) + join_nl(b) =~= join_nl(b));
    } else {
        assert((a + b).subrange(1, (a + b).len() as int) =~= a.subrange(1, a.len() as int) + b);
        lemma_join_concat(a.subrange(1, a.len() as int), b);
        assert((a + b)[0] == a[0]);
        assert(join_nl(a + b) =~= join_nl(a) + join_nl(b));
    }
}

/// Join the given lines into one text, each line followed by a newline.
pub fn join_lines(lines: &Vec<String>) -> (r: String)
    ensures
        r@ == join_nl(lines.deep_view()),
{
    let mut r = String::new();
    let ghost ls = lines.deep_view();
    let mut i: usize = 0;
    while i < lines.len()
        invariant
            0 <= i <= lines.len(),
            ls == lines.deep_view(),
            ls.len() == lines@.len(),
            r@ == join_nl(ls.subrange(0, i as int)),
        decreases lines.len() - i,
    {
        proof {
            assert(ls.subrange(0, i as int + 1) =~= ls.subrange(0, i as int) + seq![ls[i as int]]);
            lemma_join_concat(ls.subrange(0, i as int), seq![ls[i as int]]);
            assert(seq![ls[i as int]].subrange(1, 1) =~= Seq::<Seq<char>>::empty());
            assert(join_nl(Seq::<Seq<char>>::empty()) =~= Seq::<char>::empty());
            assert(join_nl(seq![ls[i as int]]) =~= ls[i as int] + seq!['\n']);
            assert(ls[i as int] == lines@[i as int]@);
            reveal_strlit("\n");
        }
        r.append(lines[i].as_str());
        r.append("\n");
        proof {
            assert(r@ =~= join_nl(ls.subrange(0, i as int + 1)));
        }
        i = i + 1;
    }
    proof {
        assert(ls.subrange(0, ls.len() as int) =~= ls);
    }
    r
}

/// Render the complete harness program for `snippet`: the fixed prefix, the
/// snippet's lines in place, the fixed suffix, one text line each.
pub fn render_harness(snippet: &str) -> (r: String)
    ensures
        r@ == join_nl(harness_lines_model(lines_of(snippet@))),
{
    let lines = harness_lines(snippet);
    join_lines(&lines)
}

/// The build manifest written beside the harness source.
pub open spec fn manifest_model() -> Seq<Seq<char>> {
    seq![
        "[package]"@,
        r#"name = "transform""#@,
        r#"version = "0.1.0""#@,
        r#"edition = "2021""#@,
        ""@,
        "[dependencies]"@,
        r#"serde = { version = "1.0", features = ["derive"] }"#@,
        r#"serde_json = "1.0""#@,
    ]
}

/// The build manifest for the workspace, as one text.
pub fn render_manifest() -> (r: String)
    ensures
        r@ == join_nl(manifest_model()),
{
    let mut v: Vec<String> = Vec::new();
    v.push(String::from_str("[package]"));
    v.push(String::from_str(r#"name = "transform""#));
    v.push(String::from_str(r#"version = "0.1.0""#));
    v.push(String::from_str(r#"edition = "2021""#));
    v.push(String::from_str(""));
    v.push(String::from_str("[dependencies]"));
    v.push(String::from_str(r#"serde = { version = "1.0", features = ["derive"] }"#));
    v.push(String::from_str(r#"serde_json = "1.0""#));
    proof {
        assert(v.deep_view() =~~= manifest_model());
    }
    join_lines(&v)
}

} // verus!
