//! Stamping one line of metrics text with the name of the container it came from.

use crate::text::{is_white_space, is_white_space_char};
use vstd::prelude::*;
use vstd::std_specs::iter::IteratorSpec;
use vstd::string::*;

verus! {

/// What a line of metrics text is taken for.
#[derive(Clone, Copy, Debug, PartialEq, Eq, Structural)]
pub enum LineKind {
    /// Its first character that is no white space is `#`.
    Comment,
    /// No comment, and it holds a `{`.
    Labeled,
    /// No comment, no `{`, and it holds a space.
    Unlabeled,
    /// None of the others.
    Malformed,
}

/// The character at place `at` is a `#` with only white space before it.
pub open spec fn comment_starts_at(line: Seq<char>, at: int) -> bool {
    0 <= at < line.len() && line[at] == '#' && blank_before(line, at)
}

/// A `#` among the first `upto` characters has only white space before it.
pub open spec fn comment_within(line: Seq<char>, upto: int) -> bool {
    exists|at: int| at < upto && #[trigger] comment_starts_at(line, at)
}

/// The first `upto` characters are all white space.
pub open spec fn blank_before(line: Seq<char>, upto: int) -> bool {
    forall|j: int| 0 <= j < upto && j < line.len() ==> is_white_space(#[trigger] line[j])
}

/// The line, with the white space at its start left out, starts with `#`.
pub open spec fn is_comment(line: Seq<char>) -> bool {
    comment_within(line, line.len() as int)
}

/// `at` is the place of the first `c` in `line`.
pub open spec fn is_first_at(line: Seq<char>, c: char, at: int) -> bool {
    &&& 0 <= at < line.len()
    &&& line[at] == c
    &&& forall|j: int| 0 <= j < at ==> #[trigger] line[j] != c
}

/// The place of the first `c` in a line that holds one.
pub open spec fn first_position(line: Seq<char>, c: char) -> int {
    choose|at: int| is_first_at(line, c, at)
}

pub open spec fn line_kind(line: Seq<char>) -> LineKind {
    if is_comment(line) {
        LineKind::Comment
    } else if line.contains('{') {
        LineKind::Labeled
    } else if line.contains(' ') {
        LineKind::Unlabeled
    } else {
        LineKind::Malformed
    }
}

/// The label that names the container. The name is written as it is, without
/// quotes or escapes.
pub open spec fn identity_label(name: Seq<char>) -> Seq<char> {
    "container_name="@ + name
}

/// The line as it leaves the relabeler. A comment and a malformed line stay as
/// they are. A labeled sample gets the label, and a comma, right after its first
/// `{`. An unlabeled sample gets the label in braces right before its first
/// space.
pub open spec fn relabeled(line: Seq<char>, name: Seq<char>) -> Seq<char> {
    match line_kind(line) {
        LineKind::Comment => line,
        LineKind::Labeled => {
            let at = first_position(line, '{');
            line.take(at + 1) + identity_label(name) + seq![','] + line.skip(at + 1)
        },
        LineKind::Unlabeled => {
            let at = first_position(line, ' ');
            line.take(at) + seq!['{'] + identity_label(name) + seq!['}'] + line.skip(at)
        },
        LineKind::Malformed => line,
    }
}

/// Only one place can be the first.
pub proof fn first_position_is(line: Seq<char>, c: char, at: int)
    requires
        is_first_at(line, c, at),
    ensures
        first_position(line, c) == at,
        line.contains(c),
{
    let chosen = first_position(line, c);
    assert(is_first_at(line, c, chosen));
    if chosen < at {
        assert(line[chosen] != c);
    }
    if at < chosen {
        assert(line[at] != c);
    }
}

/// A comment line leaves the relabeler as it came, whatever the name.
pub proof fn comment_passes_unchanged(line: Seq<char>, name: Seq<char>)
    requires
        is_comment(line),
    ensures
        relabeled(line, name) == line,
{
}

/// A line that is no comment and holds neither a `{` nor a space leaves the
/// relabeler as it came.
pub proof fn malformed_passes_unchanged(line: Seq<char>, name: Seq<char>)
    requires
        !is_comment(line),
        !line.contains('{'),
        !line.contains(' '),
    ensures
        relabeled(line, name) == line,
{
}

/// A sample without labels, made of a metric name and a rest that starts with
/// the first space of the line, gets a label group of its own between the two.
pub proof fn unlabeled_sample_gains_label_group(
    metric: Seq<char>,
    rest: Seq<char>,
    name: Seq<char>,
)
    requires
        !is_comment(metric + rest),
        !(metric + rest).contains('{'),
        !metric.contains(' '),
        rest.len() > 0,
        rest[0] == ' ',
    ensures
        relabeled(metric + rest, name) == metric + seq!['{'] + identity_label(name) + seq!['}']
            + rest,
{
    let line = metric + rest;
    let at = metric.len() as int;
    assert(line[at] == rest[0]);
    assert forall|j: int| 0 <= j < at implies #[trigger] line[j] != ' ' by {
        assert(line[j] == metric[j]);
        assert(metric.contains(metric[j]));
    }
    first_position_is(line, ' ', at);
    assert(line.take(at) =~= metric);
    assert(line.skip(at) =~= rest);
}

/// A sample with labels, made of what stands before its first `{`, the `{` and
/// a rest, gets the label as the first of its group, with a comma behind it.
pub proof fn labeled_sample_gains_first_label(head: Seq<char>, rest: Seq<char>, name: Seq<char>)
    requires
        !is_comment(head + seq!['{'] + rest),
        !head.contains('{'),
    ensures
        relabeled(head + seq!['{'] + rest, name) == head + seq!['{'] + identity_label(name)
            + seq![','] + rest,
{
    let line = head + seq!['{'] + rest;
    let at = head.len() as int;
    assert(line[at] == '{');
    assert forall|j: int| 0 <= j < at implies #[trigger] line[j] != '{' by {
        assert(line[j] == head[j]);
        assert(head.contains(head[j]));
    }
    first_position_is(line, '{', at);
    assert(line.take(at + 1) =~= head + seq!['{']);
    assert(line.skip(at + 1) =~= rest);
}

/// A line whose first character is neither white space nor `#` is no comment.
pub proof fn plain_start_is_no_comment(line: Seq<char>)
    requires
        line.len() > 0,
        !is_white_space(line[0]),
        line[0] != '#',
    ensures
        !is_comment(line),
{
    if is_comment(line) {
        let i = choose|i: int| i < line.len() && #[trigger] comment_starts_at(line, i);
        if i > 0 {
            assert(is_white_space(line[0]));
        }
    }
}

/// No place before `upto` holds `c`.
pub open spec fn absent_before(line: Seq<char>, c: char, upto: int) -> bool {
    forall|j: int| 0 <= j < upto && j < line.len() ==> #[trigger] line[j] != c
}

/// What one pass over a line finds.
struct LineScan {
    len: usize,
    comment: bool,
    brace: Option<usize>,
    space: Option<usize>,
}

impl LineScan {
    spec fn found(place: Option<usize>, line: Seq<char>, c: char, upto: int) -> bool {
        match place {
            Some(at) => at < upto && is_first_at(line, c, at as int),
            None => absent_before(line, c, upto),
        }
    }

    spec fn describes(self, line: Seq<char>) -> bool {
        &&& self.len == line.len()
        &&& self.comment == is_comment(line)
        &&& Self::found(self.brace, line, '{', line.len() as int)
        &&& Self::found(self.space, line, ' ', line.len() as int)
    }
}

fn scan_line(line: &str) -> (scan: LineScan)
    ensures
        scan.describes(line@),
{
    let len = line.unicode_len();
    let mut at: usize = 0;
    let mut blank = true;
    let mut comment = false;
    let mut brace: Option<usize> = None;
    let mut space: Option<usize> = None;
    for c in it: line.chars()
        invariant
            it.seq() == line@,
            len == line@.len(),
            at == it.index(),
            blank == blank_before(line@, at as int),
            comment == comment_within(line@, at as int),
            LineScan::found(brace, line@, '{', at as int),
            LineScan::found(space, line@, ' ', at as int),
    {
        proof {
            assert(line@[at as int] == c);
        }
        if blank && c == '#' {
            comment = true;
            assert(comment_starts_at(line@, at as int));
        }
        proof {
            if comment_within(line@, at + 1) && !comment_within(line@, at as int) {
                let i = choose|i: int| i < at + 1 && #[trigger] comment_starts_at(line@, i);
                assert(i == at);
            }
        }
        if !is_white_space_char(c) {
            blank = false;
        }
        if c == '{' && brace.is_none() {
            brace = Some(at);
        }
        if c == ' ' && space.is_none() {
            space = Some(at);
        }
        at = at + 1;
    }
    LineScan { len, comment, brace, space }
}

/// Tells what kind of line `line` is.
pub fn classify(line: &str) -> (kind: LineKind)
    ensures
        kind == line_kind(line@),
{
    let scan = scan_line(line);
    proof {
        place_decides(scan.brace, line@, '{');
        place_decides(scan.space, line@, ' ');
    }
    if scan.comment {
        LineKind::Comment
    } else if scan.brace.is_some() {
        LineKind::Labeled
    } else if scan.space.is_some() {
        LineKind::Unlabeled
    } else {
        LineKind::Malformed
    }
}

proof fn place_decides(place: Option<usize>, line: Seq<char>, c: char)
    requires
        LineScan::found(place, line, c, line.len() as int),
    ensures
        place is Some <==> line.contains(c),
        place matches Some(at) ==> first_position(line, c) == at,
{
    match place {
        Some(at) => {
            first_position_is(line, c, at as int);
        },
        None => {},
    }
}

/// Rewrites one line of metrics text so that it carries the container's name
/// as a label. The name is the caller's to vouch for: it is not quoted or escaped.
pub fn add_service_name_to_metric_line(line: &str, container_name: &str) -> (out: String)
    ensures
        out@ == relabeled(line@, container_name@),
{
    let scan = scan_line(line);
    proof {
        place_decides(scan.brace, line@, '{');
        place_decides(scan.space, line@, ' ');
        reveal_strlit(",");
        reveal_strlit("{");
        reveal_strlit("}");
        assert(","@ =~= seq![',']);
        assert("{"@ =~= seq!['{']);
        assert("}"@ =~= seq!['}']);
    }
    if scan.comment {
        return String::from_str(line);
    }
    if let Some(at) = scan.brace {
        let mut out = String::from_str(line.substring_char(0, at + 1));
        out.append("container_name=");
        out.append(container_name);
        out.append(",");
        out.append(line.substring_char(at + 1, scan.len));
        proof {
            assert(out@ =~= relabeled(line@, container_name@));
        }
        return out;
    }
    if let Some(at) = scan.space {
        let mut out = String::from_str(line.substring_char(0, at));
        out.append("{");
        out.append("container_name=");
        out.append(container_name);
        out.append("}");
        out.append(line.substring_char(at, scan.len));
        proof {
            assert(out@ =~= relabeled(line@, container_name@));
        }
        return out;
    }
    String::from_str(line)
}

} // verus!
