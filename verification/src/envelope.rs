//! The command envelope: one typed operation request, serialized to a
//! single line of JSON. The worker reads exactly one envelope per
//! invocation, so the builder and the decoder here fix the wire format:
//! object keys in sorted order, every payload value a JSON string.

use crate::jsontext::append_escaped;
use crate::jsontext::escape_chars;
use crate::jsontext::lemma_unescape_escape;
use crate::jsontext::unescape_prefix;
use crate::jsontext::unescape_prefix_at;
use crate::textutil::chars_of;
use crate::textutil::push_char;
use crate::textutil::string_of_chars;
use vstd::prelude::*;

verus! {

/// One request to the worker, tagged by operation, with its payload
/// fields. Optional fields carry their defaults already applied by the
/// facade; the builder serializes exactly what stands here.
#[derive(Debug, PartialEq, Eq)]
pub enum Operation {
    Transcribe { file: String, model: String, mode: String, whisper_host: String },
    Analyze { file: String, ollama_host: String },
    Recap { file: String, style: String },
    CheckWhisperHealth { whisper_host: String },
    CheckOllamaHealth { ollama_host: String },
}

/// The mathematical model of an operation: the same shape over
/// character sequences.
pub enum OpModel {
    Transcribe { file: Seq<char>, model: Seq<char>, mode: Seq<char>, whisper_host: Seq<char> },
    Analyze { file: Seq<char>, ollama_host: Seq<char> },
    Recap { file: Seq<char>, style: Seq<char> },
    CheckWhisperHealth { whisper_host: Seq<char> },
    CheckOllamaHealth { ollama_host: Seq<char> },
}

impl View for Operation {
    type V = OpModel;

    open spec fn view(&self) -> OpModel {
        match self {
            Operation::Transcribe { file, model, mode, whisper_host } => OpModel::Transcribe {
                file: file@,
                model: model@,
                mode: mode@,
                whisper_host: whisper_host@,
            },
            Operation::Analyze { file, ollama_host } => OpModel::Analyze {
                file: file@,
                ollama_host: ollama_host@,
            },
            Operation::Recap { file, style } => OpModel::Recap { file: file@, style: style@ },
            Operation::CheckWhisperHealth { whisper_host } => OpModel::CheckWhisperHealth {
                whisper_host: whisper_host@,
            },
            Operation::CheckOllamaHealth { ollama_host } => OpModel::CheckOllamaHealth {
                ollama_host: ollama_host@,
            },
        }
    }
}

pub open spec fn pre_transcribe() -> Seq<char> {
    "{\"command\":\"transcribe\",\"file\":\""@
}

pub open spec fn pre_analyze() -> Seq<char> {
    "{\"command\":\"analyze\",\"file\":\""@
}

pub open spec fn pre_recap() -> Seq<char> {
    "{\"command\":\"recap\",\"file\":\""@
}

pub open spec fn pre_whisper_health() -> Seq<char> {
    "{\"command\":\"check_whisper_health\",\"whisper_host\":\""@
}

pub open spec fn pre_ollama_health() -> Seq<char> {
    "{\"command\":\"check_ollama_health\",\"ollama_host\":\""@
}

pub open spec fn mid_mode() -> Seq<char> {
    ",\"mode\":\""@
}

pub open spec fn mid_model() -> Seq<char> {
    ",\"model\":\""@
}

pub open spec fn mid_whisper() -> Seq<char> {
    ",\"whisper_host\":\""@
}

pub open spec fn mid_ollama() -> Seq<char> {
    ",\"ollama_host\":\""@
}

pub open spec fn mid_style() -> Seq<char> {
    ",\"style\":\""@
}

/// A closing quote.
pub open spec fn cq() -> Seq<char> {
    seq!['"']
}

/// The closing brace that ends every envelope.
pub open spec fn rb() -> Seq<char> {
    seq!['}']
}

/// The single-line JSON text of an operation: object keys in sorted
/// order, every value a JSON string literal.
pub open spec fn envelope_model(m: OpModel) -> Seq<char> {
    match m {
        OpModel::Transcribe { file, model, mode, whisper_host } => pre_transcribe() + escape_chars(
            file,
        ) + cq() + mid_mode() + escape_chars(mode) + cq() + mid_model() + escape_chars(model) + cq()
            + mid_whisper() + escape_chars(whisper_host) + cq() + rb(),
        OpModel::Analyze { file, ollama_host } => pre_analyze() + escape_chars(file) + cq()
            + mid_ollama() + escape_chars(ollama_host) + cq() + rb(),
        OpModel::Recap { file, style } => pre_recap() + escape_chars(file) + cq() + mid_style()
            + escape_chars(style) + cq() + rb(),
        OpModel::CheckWhisperHealth { whisper_host } => pre_whisper_health() + escape_chars(
            whisper_host,
        ) + cq() + rb(),
        OpModel::CheckOllamaHealth { ollama_host } => pre_ollama_health() + escape_chars(
            ollama_host,
        ) + cq() + rb(),
    }
}

/// Appends one string field: the escaped value and its closing quote.
fn append_field(out: &mut String, value: &str)
    ensures
        final(out)@ == old(out)@ + escape_chars(value@) + cq(),
{
    let cs = chars_of(value);
    append_escaped(out, &cs);
    push_char(out, '"');
    proof {
        assert(out@ =~= old(out)@ + escape_chars(value@) + cq());
    }
}

/// Serializes the operation to its single-line JSON envelope
/// (without the trailing newline; the bridge appends that).
pub fn build_envelope(op: &Operation) -> (r: String)
    ensures
        r@ == envelope_model(op@),
{
    match op {
        Operation::Transcribe { file, model, mode, whisper_host } => {
            let mut out = ("{\"command\":\"transcribe\",\"file\":\"").to_owned();
            append_field(&mut out, file.as_str());
            out.append(",\"mode\":\"");
            append_field(&mut out, mode.as_str());
            out.append(",\"model\":\"");
            append_field(&mut out, model.as_str());
            out.append(",\"whisper_host\":\"");
            append_field(&mut out, whisper_host.as_str());
            push_char(&mut out, '}');
            proof {
                assert(out@ =~= envelope_model(op@));
            }
            out
        },
        Operation::Analyze { file, ollama_host } => {
            let mut out = ("{\"command\":\"analyze\",\"file\":\"").to_owned();
            append_field(&mut out, file.as_str());
            out.append(",\"ollama_host\":\"");
            append_field(&mut out, ollama_host.as_str());
            push_char(&mut out, '}');
            proof {
                assert(out@ =~= envelope_model(op@));
            }
            out
        },
        Operation::Recap { file, style } => {
            let mut out = ("{\"command\":\"recap\",\"file\":\"").to_owned();
            append_field(&mut out, file.as_str());
            out.append(",\"style\":\"");
            append_field(&mut out, style.as_str());
            push_char(&mut out, '}');
            proof {
                assert(out@ =~= envelope_model(op@));
            }
            out
        },
        Operation::CheckWhisperHealth { whisper_host } => {
            let mut out = ("{\"command\":\"check_whisper_health\",\"whisper_host\":\"").to_owned();
            append_field(&mut out, whisper_host.as_str());
            push_char(&mut out, '}');
            proof {
                assert(out@ =~= envelope_model(op@));
            }
            out
        },
        Operation::CheckOllamaHealth { ollama_host } => {
            let mut out = ("{\"command\":\"check_ollama_health\",\"ollama_host\":\"").to_owned();
            append_field(&mut out, ollama_host.as_str());
            push_char(&mut out, '}');
            proof {
                assert(out@ =~= envelope_model(op@));
            }
            out
        },
    }
}

/// The text after `p` when `p` is a prefix of `t`.
pub open spec fn strip(t: Seq<char>, p: Seq<char>) -> Option<Seq<char>> {
    if p.is_prefix_of(t) {
        Some(t.skip(p.len() as int))
    } else {
        None
    }
}

pub proof fn lemma_strip_concat(p: Seq<char>, r: Seq<char>)
    ensures
        strip(p + r, p) == Some(r),
{
    assert(p =~= (p + r).subrange(0, p.len() as int));
    assert((p + r).skip(p.len() as int) =~= r);
}

pub proof fn lemma_differs_not_prefix(p: Seq<char>, t: Seq<char>, i: int)
    requires
        0 <= i < p.len(),
        i < t.len(),
        p[i] != t[i],
    ensures
        !p.is_prefix_of(t),
{
    if p.is_prefix_of(t) {
        assert(p[i] == t.subrange(0, p.len() as int)[i]);
    }
}

/// What the worker reads back from a transcribe envelope.
pub open spec fn parse_transcribe(t: Seq<char>) -> Option<OpModel> {
    match strip(t, pre_transcribe()) {
        Some(t1) => match unescape_prefix(t1) {
            Some((file, t2)) => match strip(t2, mid_mode()) {
                Some(t3) => match unescape_prefix(t3) {
                    Some((mode, t4)) => match strip(t4, mid_model()) {
                        Some(t5) => match unescape_prefix(t5) {
                            Some((model, t6)) => match strip(t6, mid_whisper()) {
                                Some(t7) => match unescape_prefix(t7) {
                                    Some((whisper_host, t8)) => if t8 == rb() {
                                        Some(
                                            OpModel::Transcribe {
                                                file,
                                                model,
                                                mode,
                                                whisper_host,
                                            },
                                        )
                                    } else {
                                        None
                                    },
                                    None => None,
                                },
                                None => None,
                            },
                            None => None,
                        },
                        None => None,
                    },
                    None => None,
                },
                None => None,
            },
            None => None,
        },
        None => None,
    }
}

/// What the worker reads back from an analyze envelope.
pub open spec fn parse_analyze(t: Seq<char>) -> Option<OpModel> {
    match strip(t, pre_analyze()) {
        Some(t1) => match unescape_prefix(t1) {
            Some((file, t2)) => match strip(t2, mid_ollama()) {
                Some(t3) => match unescape_prefix(t3) {
                    Some((ollama_host, t4)) => if t4 == rb() {
                        Some(OpModel::Analyze { file, ollama_host })
                    } else {
                        None
                    },
                    None => None,
                },
                None => None,
            },
            None => None,
        },
        None => None,
    }
}

/// What the worker reads back from a recap envelope.
pub open spec fn parse_recap(t: Seq<char>) -> Option<OpModel> {
    match strip(t, pre_recap()) {
        Some(t1) => match unescape_prefix(t1) {
            Some((file, t2)) => match strip(t2, mid_style()) {
                Some(t3) => match unescape_prefix(t3) {
                    Some((style, t4)) => if t4 == rb() {
                        Some(OpModel::Recap { file, style })
                    } else {
                        None
                    },
                    None => None,
                },
                None => None,
            },
            None => None,
        },
        None => None,
    }
}

/// What the worker reads back from a whisper health-check envelope.
pub open spec fn parse_whisper_health(t: Seq<char>) -> Option<OpModel> {
    match strip(t, pre_whisper_health()) {
        Some(t1) => match unescape_prefix(t1) {
            Some((whisper_host, t2)) => if t2 == rb() {
                Some(OpModel::CheckWhisperHealth { whisper_host })
            } else {
                None
            },
            None => None,
        },
        None => None,
    }
}

/// What the worker reads back from an ollama health-check envelope.
pub open spec fn parse_ollama_health(t: Seq<char>) -> Option<OpModel> {
    match strip(t, pre_ollama_health()) {
        Some(t1) => match unescape_prefix(t1) {
            Some((ollama_host, t2)) => if t2 == rb() {
                Some(OpModel::CheckOllamaHealth { ollama_host })
            } else {
                None
            },
            None => None,
        },
        None => None,
    }
}

/// The worker's deserialization of a whole envelope line: the operation
/// tags are mutually exclusive, tried in a fixed order.
pub open spec fn parse_envelope_model(t: Seq<char>) -> Option<OpModel> {
    if parse_transcribe(t) is Some {
        parse_transcribe(t)
    } else if parse_analyze(t) is Some {
        parse_analyze(t)
    } else if parse_recap(t) is Some {
        parse_recap(t)
    } else if parse_whisper_health(t) is Some {
        parse_whisper_health(t)
    } else {
        parse_ollama_health(t)
    }
}

proof fn lemma_rt_transcribe(file: Seq<char>, model: Seq<char>, mode: Seq<char>, wh: Seq<char>)
    ensures
        parse_transcribe(
            envelope_model(OpModel::Transcribe { file, model, mode, whisper_host: wh }),
        ) == Some(OpModel::Transcribe { file, model, mode, whisper_host: wh }),
{
    let m = OpModel::Transcribe { file, model, mode, whisper_host: wh };
    let e = envelope_model(m);
    let u4 = rb();
    let q4 = escape_chars(wh) + seq!['"'] + u4;
    let u3 = mid_whisper() + q4;
    let q3 = escape_chars(model) + seq!['"'] + u3;
    let u2 = mid_model() + q3;
    let q2 = escape_chars(mode) + seq!['"'] + u2;
    let u1 = mid_mode() + q2;
    let q1 = escape_chars(file) + seq!['"'] + u1;
    assert(e =~= pre_transcribe() + q1);
    lemma_strip_concat(pre_transcribe(), q1);
    lemma_unescape_escape(file, u1);
    lemma_strip_concat(mid_mode(), q2);
    lemma_unescape_escape(mode, u2);
    lemma_strip_concat(mid_model(), q3);
    lemma_unescape_escape(model, u3);
    lemma_strip_concat(mid_whisper(), q4);
    lemma_unescape_escape(wh, u4);
}

proof fn lemma_rt_analyze(file: Seq<char>, oh: Seq<char>)
    ensures
        parse_analyze(envelope_model(OpModel::Analyze { file, ollama_host: oh })) == Some(
            OpModel::Analyze { file, ollama_host: oh },
        ),
{
    let m = OpModel::Analyze { file, ollama_host: oh };
    let e = envelope_model(m);
    let u2 = rb();
    let q2 = escape_chars(oh) + seq!['"'] + u2;
    let u1 = mid_ollama() + q2;
    let q1 = escape_chars(file) + seq!['"'] + u1;
    assert(e =~= pre_analyze() + q1);
    lemma_strip_concat(pre_analyze(), q1);
    lemma_unescape_escape(file, u1);
    lemma_strip_concat(mid_ollama(), q2);
    lemma_unescape_escape(oh, u2);
}

proof fn lemma_rt_recap(file: Seq<char>, style: Seq<char>)
    ensures
        parse_recap(envelope_model(OpModel::Recap { file, style })) == Some(
            OpModel::Recap { file, style },
        ),
{
    let m = OpModel::Recap { file, style };
    let e = envelope_model(m);
    let u2 = rb();
    let q2 = escape_chars(style) + seq!['"'] + u2;
    let u1 = mid_style() + q2;
    let q1 = escape_chars(file) + seq!['"'] + u1;
    assert(e =~= pre_recap() + q1);
    lemma_strip_concat(pre_recap(), q1);
    lemma_unescape_escape(file, u1);
    lemma_strip_concat(mid_style(), q2);
    lemma_unescape_escape(style, u2);
}

proof fn lemma_rt_whisper_health(wh: Seq<char>)
    ensures
        parse_whisper_health(envelope_model(OpModel::CheckWhisperHealth { whisper_host: wh }))
            == Some(OpModel::CheckWhisperHealth { whisper_host: wh }),
{
    let m = OpModel::CheckWhisperHealth { whisper_host: wh };
    let e = envelope_model(m);
    let u1 = rb();
    let q1 = escape_chars(wh) + seq!['"'] + u1;
    assert(e =~= pre_whisper_health() + q1);
    lemma_strip_concat(pre_whisper_health(), q1);
    lemma_unescape_escape(wh, u1);
}

proof fn lemma_rt_ollama_health(oh: Seq<char>)
    ensures
        parse_ollama_health(envelope_model(OpModel::CheckOllamaHealth { ollama_host: oh })) == Some(
            OpModel::CheckOllamaHealth { ollama_host: oh },
        ),
{
    let m = OpModel::CheckOllamaHealth { ollama_host: oh };
    let e = envelope_model(m);
    let u1 = rb();
    let q1 = escape_chars(oh) + seq!['"'] + u1;
    assert(e =~= pre_ollama_health() + q1);
    lemma_strip_concat(pre_ollama_health(), q1);
    lemma_unescape_escape(oh, u1);
}

/// The command tags all differ from one another within the first
/// characters of the envelope, so an envelope of one operation never
/// begins with another operation's prefix.
proof fn lemma_tag_chars()
    ensures
        pre_transcribe().len() == 32 && pre_transcribe()[12] == 't',
        pre_analyze().len() == 29 && pre_analyze()[12] == 'a',
        pre_recap().len() == 27 && pre_recap()[12] == 'r',
        pre_whisper_health().len() == 50 && pre_whisper_health()[12] == 'c'
            && pre_whisper_health()[18] == 'w',
        pre_ollama_health().len() == 48 && pre_ollama_health()[12] == 'c'
            && pre_ollama_health()[18] == 'o',
{
    reveal_strlit("{\"command\":\"transcribe\",\"file\":\"");
    reveal_strlit("{\"command\":\"analyze\",\"file\":\"");
    reveal_strlit("{\"command\":\"recap\",\"file\":\"");
    reveal_strlit("{\"command\":\"check_whisper_health\",\"whisper_host\":\"");
    reveal_strlit("{\"command\":\"check_ollama_health\",\"ollama_host\":\"");
}

/// Building an envelope and then reading it back as the worker does
/// yields the operation unchanged, with every field exact.
pub proof fn lemma_envelope_round_trip(m: OpModel)
    ensures
        parse_envelope_model(envelope_model(m)) == Some(m),
{
    let e = envelope_model(m);
    lemma_tag_chars();
    match m {
        OpModel::Transcribe { file, model, mode, whisper_host } => {
            lemma_rt_transcribe(file, model, mode, whisper_host);
        },
        OpModel::Analyze { file, ollama_host } => {
            let q1 = escape_chars(file) + cq() + mid_ollama() + escape_chars(ollama_host) + cq()
                + rb();
            assert(e =~= pre_analyze() + q1);
            assert(e[12] == 'a');
            lemma_differs_not_prefix(pre_transcribe(), e, 12);
            lemma_rt_analyze(file, ollama_host);
        },
        OpModel::Recap { file, style } => {
            let q1 = escape_chars(file) + cq() + mid_style() + escape_chars(style) + cq() + rb();
            assert(e =~= pre_recap() + q1);
            assert(e[12] == 'r');
            lemma_differs_not_prefix(pre_transcribe(), e, 12);
            lemma_differs_not_prefix(pre_analyze(), e, 12);
            lemma_rt_recap(file, style);
        },
        OpModel::CheckWhisperHealth { whisper_host } => {
            let q1 = escape_chars(whisper_host) + cq() + rb();
            assert(e =~= pre_whisper_health() + q1);
            assert(e[12] == 'c');
            assert(e[18] == 'w');
            lemma_differs_not_prefix(pre_transcribe(), e, 12);
            lemma_differs_not_prefix(pre_analyze(), e, 12);
            lemma_differs_not_prefix(pre_recap(), e, 12);
            lemma_rt_whisper_health(whisper_host);
        },
        OpModel::CheckOllamaHealth { ollama_host } => {
            let q1 = escape_chars(ollama_host) + cq() + rb();
            assert(e =~= pre_ollama_health() + q1);
            assert(e[12] == 'c');
            assert(e[18] == 'o');
            lemma_differs_not_prefix(pre_transcribe(), e, 12);
            lemma_differs_not_prefix(pre_analyze(), e, 12);
            lemma_differs_not_prefix(pre_recap(), e, 12);
            lemma_differs_not_prefix(pre_whisper_health(), e, 18);
            lemma_rt_ollama_health(ollama_host);
        },
    }
}

/// Advances past `lit` when the text at `start` begins with it.
fn match_lit(v: &Vec<char>, start: usize, lit: &str) -> (r: Option<usize>)
    requires
        start <= v@.len(),
    ensures
        match r {
            Some(end) => start <= end <= v@.len() && strip(v@.skip(start as int), lit@) == Some(
                v@.skip(end as int),
            ),
            None => strip(v@.skip(start as int), lit@) is None,
        },
{
    let ghost t = v@.skip(start as int);
    let n = lit.unicode_len();
    let vn = v.len();
    if vn - start < n {
        proof {
            assert(t.len() < lit@.len());
        }
        return None;
    }
    let mut j: usize = 0;
    while j < n
        invariant
            j <= n,
            n == lit@.len(),
            vn == v@.len(),
            start + n <= vn,
            t == v@.skip(start as int),
            forall|k: int| 0 <= k < j ==> lit@[k] == t[k],
        decreases n - j,
    {
        let c = lit.get_char(j);
        if c != v[start + j] {
            proof {
                assert(t[j as int] == v@[start + j]);
                if lit@.is_prefix_of(t) {
                    assert(lit@[j as int] == t.subrange(0, lit@.len() as int)[j as int]);
                }
            }
            return None;
        }
        proof {
            assert(t[j as int] == v@[start + j]);
        }
        j = j + 1;
    }
    proof {
        assert(lit@ =~= t.subrange(0, n as int));
        assert(t.skip(n as int) =~= v@.skip(start + n as int));
    }
    Some(start + n)
}

/// Reads one string value and hands it back with the position after its
/// closing quote.
fn parse_field(v: &Vec<char>, start: usize) -> (r: Option<(String, usize)>)
    requires
        start <= v@.len(),
    ensures
        match r {
            Some(p) => start < p.1 <= v@.len() && unescape_prefix(v@.skip(start as int)) == Some(
                (p.0@, v@.skip(p.1 as int)),
            ),
            None => unescape_prefix(v@.skip(start as int)) is None,
        },
{
    match unescape_prefix_at(v, start) {
        Some((cs, end)) => Some((string_of_chars(&cs), end)),
        None => None,
    }
}

/// Whether everything from `i` on is exactly the closing brace.
fn at_closing_brace(v: &Vec<char>, i: usize) -> (r: bool)
    requires
        i <= v@.len(),
    ensures
        r == (v@.skip(i as int) == rb()),
{
    if v.len() - i == 1 && v[i] == '}' {
        proof {
            assert(v@.skip(i as int) =~= rb());
        }
        true
    } else {
        proof {
            let t = v@.skip(i as int);
            if t == rb() {
                assert(t.len() == 1);
                assert(t[0] == v@[i as int]);
                assert(rb()[0] == '}');
            }
        }
        false
    }
}

fn parse_transcribe_at(v: &Vec<char>) -> (r: Option<Operation>)
    ensures
        match r {
            Some(op) => parse_transcribe(v@) == Some(op@),
            None => parse_transcribe(v@) is None,
        },
{
    proof {
        assert(v@.skip(0) =~= v@);
    }
    let i1 = match match_lit(v, 0, "{\"command\":\"transcribe\",\"file\":\"") {
        Some(i) => i,
        None => {
            return None;
        },
    };
    let (file, i2) = match parse_field(v, i1) {
        Some(p) => p,
        None => {
            return None;
        },
    };
    let i3 = match match_lit(v, i2, ",\"mode\":\"") {
        Some(i) => i,
        None => {
            return None;
        },
    };
    let (mode, i4) = match parse_field(v, i3) {
        Some(p) => p,
        None => {
            return None;
        },
    };
    let i5 = match match_lit(v, i4, ",\"model\":\"") {
        Some(i) => i,
        None => {
            return None;
        },
    };
    let (model, i6) = match parse_field(v, i5) {
        Some(p) => p,
        None => {
            return None;
        },
    };
    let i7 = match match_lit(v, i6, ",\"whisper_host\":\"") {
        Some(i) => i,
        None => {
            return None;
        },
    };
    let (whisper_host, i8) = match parse_field(v, i7) {
        Some(p) => p,
        None => {
            return None;
        },
    };
    if at_closing_brace(v, i8) {
        Some(Operation::Transcribe { file, model, mode, whisper_host })
    } else {
        None
    }
}

fn parse_analyze_at(v: &Vec<char>) -> (r: Option<Operation>)
    ensures
        match r {
            Some(op) => parse_analyze(v@) == Some(op@),
            None => parse_analyze(v@) is None,
        },
{
    proof {
        assert(v@.skip(0) =~= v@);
    }
    let i1 = match match_lit(v, 0, "{\"command\":\"analyze\",\"file\":\"") {
        Some(i) => i,
        None => {
            return None;
        },
    };
    let (file, i2) = match parse_field(v, i1) {
        Some(p) => p,
        None => {
            return None;
        },
    };
    let i3 = match match_lit(v, i2, ",\"ollama_host\":\"") {
        Some(i) => i,
        None => {
            return None;
        },
    };
    let (ollama_host, i4) = match parse_field(v, i3) {
        Some(p) => p,
        None => {
            return None;
        },
    };
    if at_closing_brace(v, i4) {
        Some(Operation::Analyze { file, ollama_host })
    } else {
        None
    }
}

fn parse_recap_at(v: &Vec<char>) -> (r: Option<Operation>)
    ensures
        match r {
            Some(op) => parse_recap(v@) == Some(op@),
            None => parse_recap(v@) is None,
        },
{
    proof {
        assert(v@.skip(0) =~= v@);
    }
    let i1 = match match_lit(v, 0, "{\"command\":\"recap\",\"file\":\"") {
        Some(i) => i,
        None => {
            return None;
        },
    };
    let (file, i2) = match parse_field(v, i1) {
        Some(p) => p,
        None => {
            return None;
        },
    };
    let i3 = match match_lit(v, i2, ",\"style\":\"") {
        Some(i) => i,
        None => {
            return None;
        },
    };
    let (style, i4) = match parse_field(v, i3) {
        Some(p) => p,
        None => {
            return None;
        },
    };
    if at_closing_brace(v, i4) {
        Some(Operation::Recap { file, style })
    } else {
        None
    }
}

fn parse_whisper_health_at(v: &Vec<char>) -> (r: Option<Operation>)
    ensures
        match r {
            Some(op) => parse_whisper_health(v@) == Some(op@),
            None => parse_whisper_health(v@) is None,
        },
{
    proof {
        assert(v@.skip(0) =~= v@);
    }
    let i1 = match match_lit(v, 0, "{\"command\":\"check_whisper_health\",\"whisper_host\":\"") {
        Some(i) => i,
        None => {
            return None;
        },
    };
    let (whisper_host, i2) = match parse_field(v, i1) {
        Some(p) => p,
        None => {
            return None;
        },
    };
    if at_closing_brace(v, i2) {
        Some(Operation::CheckWhisperHealth { whisper_host })
    } else {
        None
    }
}

fn parse_ollama_health_at(v: &Vec<char>) -> (r: Option<Operation>)
    ensures
        match r {
            Some(op) => parse_ollama_health(v@) == Some(op@),
            None => parse_ollama_health(v@) is None,
        },
{
    proof {
        assert(v@.skip(0) =~= v@);
    }
    let i1 = match match_lit(v, 0, "{\"command\":\"check_ollama_health\",\"ollama_host\":\"") {
        Some(i) => i,
        None => {
            return None;
        },
    };
    let (ollama_host, i2) = match parse_field(v, i1) {
        Some(p) => p,
        None => {
            return None;
        },
    };
    if at_closing_brace(v, i2) {
        Some(Operation::CheckOllamaHealth { ollama_host })
    } else {
        None
    }
}

/// Deserializes one envelope line as the worker does: the first
/// operation whose wire shape matches. Returns `None` when the line is
/// no well-formed envelope of any operation.
pub fn parse_envelope(line: &str) -> (r: Option<Operation>)
    ensures
        match r {
            Some(op) => parse_envelope_model(line@) == Some(op@),
            None => parse_envelope_model(line@) is None,
        },
{
    let v = chars_of(line);
    if let Some(op) = parse_transcribe_at(&v) {
        return Some(op);
    }
    if let Some(op) = parse_analyze_at(&v) {
        return Some(op);
    }
    if let Some(op) = parse_recap_at(&v) {
        return Some(op);
    }
    if let Some(op) = parse_whisper_health_at(&v) {
        return Some(op);
    }
    if let Some(op) = parse_ollama_health_at(&v) {
        return Some(op);
    }
    None
}

} // verus!
