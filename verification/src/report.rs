//! Rendering of collected validation errors as error-indicator lines.
//!
//! Each error holds two paths, one into the instance and one into the
//! schema.  A failing instance is reported as one JSON object per error,
//! shaped `{"instancePath":"<pointer>","schemaPath":"<pointer>"}`, in the
//! order the validator returned them; quiet mode suppresses all lines but
//! still fails the run.

use vstd::prelude::*;
use vstd::string::StrSliceExecFns;
use vstd::string::StringExecFns;
use crate::options::resolved_max_errors;
use crate::pointer::pointer_of;
use crate::pointer::seg_views;
use crate::pointer::to_json_pointer;

verus! {

/// One validation error: a path into the instance and a path into the
/// schema, each in root-to-leaf order with raw (unescaped) segments.
#[derive(Debug)]
pub struct PathError {
    pub instance_path: Vec<String>,
    pub schema_path: Vec<String>,
}

impl PathError {
    pub open spec fn ipaths(self) -> Seq<Seq<char>> {
        seg_views(self.instance_path@)
    }

    pub open spec fn spaths(self) -> Seq<Seq<char>> {
        seg_views(self.schema_path@)
    }
}

/// The lower-case hexadecimal digit for a value below sixteen.
pub open spec fn hex_digit(n: u32) -> char {
    if n == 0 {
        '0'
    } else if n == 1 {
        '1'
    } else if n == 2 {
        '2'
    } else if n == 3 {
        '3'
    } else if n == 4 {
        '4'
    } else if n == 5 {
        '5'
    } else if n == 6 {
        '6'
    } else if n == 7 {
        '7'
    } else if n == 8 {
        '8'
    } else if n == 9 {
        '9'
    } else if n == 10 {
        'a'
    } else if n == 11 {
        'b'
    } else if n == 12 {
        'c'
    } else if n == 13 {
        'd'
    } else if n == 14 {
        'e'
    } else {
        'f'
    }
}

/// How one character is written inside a JSON string literal: quotes and
/// backslashes are escaped, control characters get their short escape or a
/// `\u00xx` escape, everything else stands as itself.
pub open spec fn json_escape_char(c: char) -> Seq<char> {
    if c == '"' {
        seq!['\\', '"']
    } else if c == '\\' {
        seq!['\\', '\\']
    } else if c == '\u{8}' {
        seq!['\\', 'b']
    } else if c == '\t' {
        seq!['\\', 't']
    } else if c == '\n' {
        seq!['\\', 'n']
    } else if c == '\u{c}' {
        seq!['\\', 'f']
    } else if c == '\r' {
        seq!['\\', 'r']
    } else if (c as u32) < 32 {
        seq!['\\', 'u', '0', '0', hex_digit((c as u32) / 16), hex_digit((c as u32) % 16)]
    } else {
        seq![c]
    }
}

/// A whole string as written inside a JSON string literal.
pub open spec fn json_escape(s: Seq<char>) -> Seq<char>
    decreases s.len(),
{
    if s.len() == 0 {
        Seq::empty()
    } else {
        json_escape_char(s[0]) + json_escape(s.subrange(1, s.len() as int))
    }
}

/// The serialized error-indicator object for one pair of paths.
pub open spec fn indicator_line(ip: Seq<Seq<char>>, sp: Seq<Seq<char>>) -> Seq<char> {
    "{\"instancePath\":\""@ + json_escape(pointer_of(ip)) + "\",\"schemaPath\":\""@
        + json_escape(pointer_of(sp)) + "\"}"@
}

/// The serialized indicator line for one error.
pub open spec fn error_line(e: PathError) -> Seq<char> {
    indicator_line(e.ipaths(), e.spaths())
}

/// What is printed for one instance: nothing under quiet mode, otherwise
/// one line per error, in order.
pub open spec fn report_lines(errors: Seq<PathError>, quiet: bool) -> Seq<Seq<char>> {
    if quiet {
        Seq::empty()
    } else {
        errors.map_values(|e: PathError| error_line(e))
    }
}

/// An instance fails exactly when the validator found at least one error.
pub open spec fn run_failed(errors: Seq<PathError>) -> bool {
    errors.len() > 0
}

/// The path pairs of a sequence of errors: each error as its instance
/// path and its schema path.
pub open spec fn path_pairs(errors: Seq<PathError>) -> Seq<(Seq<Seq<char>>, Seq<Seq<char>>)> {
    errors.map_values(|e: PathError| (e.ipaths(), e.spaths()))
}

/// What is printed for path pairs: nothing under quiet mode, otherwise one
/// indicator line per pair, in order.
pub open spec fn pair_lines(
    pairs: Seq<(Seq<Seq<char>>, Seq<Seq<char>>)>,
    quiet: bool,
) -> Seq<Seq<char>> {
    if quiet {
        Seq::empty()
    } else {
        pairs.map_values(|p: (Seq<Seq<char>>, Seq<Seq<char>>)| indicator_line(p.0, p.1))
    }
}

/// The lines of a report depend only on the errors' path pairs: rendering
/// the errors and rendering their pairs agree.
pub proof fn lemma_report_lines_from_pairs(errors: Seq<PathError>, quiet: bool)
    ensures
        report_lines(errors, quiet) == pair_lines(path_pairs(errors), quiet),
        path_pairs(errors).len() == errors.len(),
{
    if !quiet {
        assert(report_lines(errors, quiet) =~= pair_lines(path_pairs(errors), quiet));
    }
}

proof fn lemma_json_escape_push(s: Seq<char>, c: char)
    ensures
        json_escape(s.push(c)) == json_escape(s) + json_escape_char(c),
    decreases s.len(),
{
    let t = s.push(c);
    assert(t.len() == s.len() + 1);
    if s.len() == 0 {
        assert(t[0] == c);
        assert(t.subrange(1, t.len() as int) =~= Seq::<char>::empty());
        assert(json_escape(t) == json_escape_char(c) + json_escape(Seq::<char>::empty()));
        assert(json_escape(t) =~= json_escape(s) + json_escape_char(c));
    } else {
        assert(t[0] == s[0]);
        assert(t.subrange(1, t.len() as int) =~= s.subrange(1, s.len() as int).push(c));
        lemma_json_escape_push(s.subrange(1, s.len() as int), c);
        assert(json_escape(t) == json_escape_char(s[0]) + (json_escape(
            s.subrange(1, s.len() as int),
        ) + json_escape_char(c)));
        assert(json_escape(t) =~= json_escape(s) + json_escape_char(c));
    }
}

fn hex_digit_exec(n: u32) -> (r: char)
    requires
        n < 16,
    ensures
        r == hex_digit(n),
{
    if n == 0 {
        '0'
    } else if n == 1 {
        '1'
    } else if n == 2 {
        '2'
    } else if n == 3 {
        '3'
    } else if n == 4 {
        '4'
    } else if n == 5 {
        '5'
    } else if n == 6 {
        '6'
    } else if n == 7 {
        '7'
    } else if n == 8 {
        '8'
    } else if n == 9 {
        '9'
    } else if n == 10 {
        'a'
    } else if n == 11 {
        'b'
    } else if n == 12 {
        'c'
    } else if n == 13 {
        'd'
    } else if n == 14 {
        'e'
    } else {
        'f'
    }
}

/// Escape a string for inclusion inside a JSON string literal.
pub fn escape_json(s: &str) -> (r: String)
    ensures
        r@ == json_escape(s@),
{
    let len: usize = s.unicode_len();
    let mut r = String::new();
    let mut i: usize = 0;
    while i < len
        invariant
            i <= len,
            len == s@.len(),
            r@ == json_escape(s@.subrange(0, i as int)),
        decreases len - i,
    {
        let c = s.get_char(i);
        proof {
            reveal_strlit("\\\"");
            reveal_strlit("\\\\");
            reveal_strlit("\\b");
            reveal_strlit("\\t");
            reveal_strlit("\\n");
            reveal_strlit("\\f");
            reveal_strlit("\\r");
            reveal_strlit("\\u00");
            lemma_json_escape_push(s@.subrange(0, i as int), s@[i as int]);
            assert(s@.subrange(0, i as int + 1) =~= s@.subrange(0, i as int).push(
                s@[i as int],
            ));
        }
        if c == '"' {
            r.append("\\\"");
        } else if c == '\\' {
            r.append("\\\\");
        } else if c == '\u{8}' {
            r.append("\\b");
        } else if c == '\t' {
            r.append("\\t");
        } else if c == '\n' {
            r.append("\\n");
        } else if c == '\u{c}' {
            r.append("\\f");
        } else if c == '\r' {
            r.append("\\r");
        } else if (c as u32) < 32 {
            r.append("\\u00");
            let hi = hex_digit_exec((c as u32) / 16);
            let lo = hex_digit_exec((c as u32) % 16);
            r.push(hi);
            r.push(lo);
        } else {
            r.push(c);
        }
        i = i + 1;
    }
    proof {
        assert(s@.subrange(0, len as int) =~= s@);
    }
    r
}

/// Serialize one error as its indicator line.
pub fn render_indicator(e: &PathError) -> (r: String)
    ensures
        r@ == error_line(*e),
{
    let mut s = String::from_str("{\"instancePath\":\"");
    let ip = to_json_pointer(&e.instance_path);
    let ipe = escape_json(ip.as_str());
    s.append(ipe.as_str());
    s.append("\",\"schemaPath\":\"");
    let sp = to_json_pointer(&e.schema_path);
    let spe = escape_json(sp.as_str());
    s.append(spe.as_str());
    s.append("\"}");
    proof {
        assert(s@ =~= error_line(*e));
    }
    s
}

/// What is printed for one instance and whether it failed.
#[derive(Debug)]
pub struct InstanceReport {
    pub lines: Vec<String>,
    pub failed: bool,
}

/// Decide one instance's output and verdict from its collected errors.
pub fn report_instance(errors: Vec<PathError>, quiet: bool) -> (r: InstanceReport)
    ensures
        r.failed == run_failed(errors@),
        r.lines@.map_values(|s: String| s@) == report_lines(errors@, quiet),
        quiet ==> r.lines@.len() == 0,
{
    let failed = errors.len() > 0;
    if quiet {
        proof {
            assert(Seq::<String>::empty().map_values(|s: String| s@)
                =~= report_lines(errors@, true));
        }
        InstanceReport { lines: Vec::new(), failed }
    } else {
        let mut lines: Vec<String> = Vec::new();
        let mut i: usize = 0;
        while i < errors.len()
            invariant
                i <= errors@.len(),
                lines@.len() == i,
                forall|j: int| 0 <= j < i ==> lines@[j]@ == error_line(errors@[j]),
            decreases errors@.len() - i,
        {
            let line = render_indicator(&errors[i]);
            lines.push(line);
            i = i + 1;
        }
        proof {
            assert(lines@.map_values(|s: String| s@) =~= report_lines(errors@, false));
        }
        InstanceReport { lines, failed }
    }
}

/// Quiet mode without an explicit `max-errors` resolves the limit to one,
/// so a validator honouring that limit collects at most one error for the
/// instance; no indicator line is written for it; and the instance still
/// fails the run exactly when an error was found.
pub proof fn lemma_quiet_defaults(errors: Seq<PathError>)
    requires
        errors.len() <= resolved_max_errors(None, true),
    ensures
        errors.len() <= 1,
        report_lines(errors, true) == Seq::<Seq<char>>::empty(),
        run_failed(errors) <==> errors.len() > 0,
{
}

/// Reporting is a pure function of the collected errors and the quiet
/// flag: any two reports of the same errors carry identical lines and the
/// identical verdict.
pub proof fn lemma_report_deterministic(
    errors: Seq<PathError>,
    quiet: bool,
    r1: InstanceReport,
    r2: InstanceReport,
)
    requires
        r1.failed == run_failed(errors),
        r1.lines@.map_values(|s: String| s@) == report_lines(errors, quiet),
        r2.failed == run_failed(errors),
        r2.lines@.map_values(|s: String| s@) == report_lines(errors, quiet),
    ensures
        r1.failed == r2.failed,
        r1.lines@.map_values(|s: String| s@) == r2.lines@.map_values(|s: String| s@),
{
}

} // verus!
