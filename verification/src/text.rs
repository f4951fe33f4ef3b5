//! Text as sequences of characters: white space, lines, and lossy decoding.

use vstd::prelude::*;
use vstd::std_specs::iter::IteratorSpec;
use vstd::string::*;
use vstd::utf8::{decode_utf8, valid_utf8};

verus! {

/// The characters that Unicode gives the property `White_Space`.
pub open spec fn is_white_space(c: char) -> bool {
    let u = c as u32;
    ||| 0x09 <= u <= 0x0D
    ||| u == 0x20
    ||| u == 0x85
    ||| u == 0xA0
    ||| u == 0x1680
    ||| 0x2000 <= u <= 0x200A
    ||| u == 0x2028
    ||| u == 0x2029
    ||| u == 0x202F
    ||| u == 0x205F
    ||| u == 0x3000
}

/// Whether `c` is white space.
pub fn is_white_space_char(c: char) -> (r: bool)
    ensures
        r == is_white_space(c),
{
    let u: u32 = c as u32;
    (0x09 <= u && u <= 0x0D) || u == 0x20 || u == 0x85 || u == 0xA0 || u == 0x1680 || (0x2000 <= u
        && u <= 0x200A) || u == 0x2028 || u == 0x2029 || u == 0x202F || u == 0x205F || u == 0x3000
}

/// The lines of `text`: the stretches between its newline characters. A text
/// with `n` newlines has `n + 1` lines, some of them possibly empty.
pub open spec fn lines_of(text: Seq<char>) -> Seq<Seq<char>>
    decreases text.len(),
{
    if text.len() == 0 {
        seq![Seq::empty()]
    } else {
        let before = lines_of(text.drop_last());
        if text.last() == '\n' {
            before.push(Seq::empty())
        } else {
            before.drop_last().push(before.last().push(text.last()))
        }
    }
}

/// The lines written one after the other with a newline between each two.
pub open spec fn join_lines(lines: Seq<Seq<char>>) -> Seq<char>
    decreases lines.len(),
{
    if lines.len() == 0 {
        Seq::empty()
    } else if lines.len() == 1 {
        lines[0]
    } else {
        join_lines(lines.drop_last()) + seq!['\n'] + lines.last()
    }
}

/// Splitting never gives an empty list, and no line holds a newline.
pub proof fn lines_hold_no_newline(text: Seq<char>)
    ensures
        lines_of(text).len() >= 1,
        forall|i: int| 0 <= i < lines_of(text).len() ==> !(#[trigger] lines_of(text)[i]).contains('\n'),
    decreases text.len(),
{
    if text.len() > 0 {
        lines_hold_no_newline(text.drop_last());
        let before = lines_of(text.drop_last());
        if text.last() != '\n' {
            let grown = before.last().push(text.last());
            assert forall|k: int| 0 <= k < grown.len() implies grown[k] != '\n' by {
                if k < before.last().len() {
                    assert(before.last().contains(grown[k]));
                }
            }
        }
    }
}

/// Joining the lines of a text gives the text back.
pub proof fn join_undoes_split(text: Seq<char>)
    ensures
        join_lines(lines_of(text)) == text,
    decreases text.len(),
{
    if text.len() == 0 {
        assert(join_lines(lines_of(text)) =~= text);
    } else {
        let shorter = text.drop_last();
        join_undoes_split(shorter);
        lines_hold_no_newline(shorter);
        let before = lines_of(shorter);
        if text.last() == '\n' {
            assert(before.push(Seq::empty()).drop_last() =~= before);
            assert(join_lines(lines_of(text)) =~= shorter.push('\n'));
        } else {
            let after = before.drop_last().push(before.last().push(text.last()));
            if before.len() > 1 {
                assert(after.drop_last() =~= before.drop_last());
                assert(join_lines(after) =~= join_lines(before).push(text.last()));
            } else {
                assert(join_lines(after) =~= join_lines(before).push(text.last()));
            }
        }
        assert(shorter.push(text.last()) =~= text);
    }
}

/// Joining two runs of lines, neither of them empty, gives the first joined, a
/// newline, and the second joined.
pub proof fn join_of_two_runs(first: Seq<Seq<char>>, second: Seq<Seq<char>>)
    requires
        first.len() > 0,
        second.len() > 0,
    ensures
        join_lines(first + second) == join_lines(first) + seq!['\n'] + join_lines(second),
    decreases second.len(),
{
    let all = first + second;
    assert(all.drop_last() =~= first + second.drop_last());
    assert(all.last() == second.last());
    if second.len() == 1 {
        assert(first + second.drop_last() =~= first);
    } else {
        join_of_two_runs(first, second.drop_last());
        assert(join_lines(all) =~= join_lines(first) + seq!['\n'] + join_lines(second));
    }
}

/// `String::push`: the character is added at the end.
#[verifier::external_body]
fn push_char(s: &mut String, c: char)
    ensures
        final(s)@ == old(s)@.push(c),
{
    s.push(c)
}

/// The views of owned lines.
pub open spec fn line_views(lines: Seq<String>) -> Seq<Seq<char>> {
    Seq::new(lines.len(), |i: int| lines[i]@)
}

/// Splits `text` at each newline.
pub fn split_lines(text: &str) -> (lines: Vec<String>)
    ensures
        line_views(lines@) == lines_of(text@),
{
    let mut done: Vec<String> = Vec::new();
    let mut current = String::new();
    for c in it: text.chars()
        invariant
            it.seq() == text@,
            line_views(done@).push(current@) == lines_of(text@.take(it.index() as int)),
    {
        let ghost seen = text@.take(it.index() as int);
        let ghost next = text@.take(it.index() + 1);
        proof {
            assert(next.drop_last() =~= seen);
            assert(next.last() == c);
        }
        if c == '\n' {
            let ghost old_done = done@;
            done.push(current);
            current = String::new();
            proof {
                assert(line_views(done@) =~= line_views(old_done).push(done@.last()@));
            }
        } else {
            let ghost old_current = current@;
            push_char(&mut current, c);
            proof {
                assert(line_views(done@).push(old_current).drop_last() =~= line_views(done@));
            }
        }
    }
    let ghost old_done = done@;
    done.push(current);
    proof {
        assert(text@.take(text@.len() as int) =~= text@);
        assert(line_views(done@) =~= line_views(old_done).push(done@.last()@));
    }
    done
}

/// Writes the lines one after the other with a newline between each two.
pub fn join(lines: &Vec<String>) -> (text: String)
    ensures
        text@ == join_lines(line_views(lines@)),
{
    let mut text = String::new();
    let ghost all = line_views(lines@);
    let mut i: usize = 0;
    while i < lines.len()
        invariant
            i <= lines@.len(),
            all == line_views(lines@),
            text@ == join_lines(all.take(i as int)),
        decreases lines@.len() - i,
    {
        if i > 0 {
            text.append("\n");
        }
        text.append(lines[i].as_str());
        proof {
            reveal_strlit("\n");
            assert("\n"@ =~= seq!['\n']);
            assert(all.take(i + 1).drop_last() =~= all.take(i as int));
            assert(all.take(i + 1).last() == lines@[i as int]@);
            assert(text@ =~= join_lines(all.take(i + 1)));
        }
        i = i + 1;
    }
    proof {
        assert(all.take(i as int) =~= all);
    }
    text
}

/// What lossy UTF-8 decoding makes of a byte string: the text that the bytes
/// encode, with U+FFFD in place of each stretch that is no valid encoding.
pub uninterp spec fn utf8_lossy(bytes: Seq<u8>) -> Seq<char>;

/// `String::from_utf8_lossy`, made into an owned string. The result depends on
/// the bytes alone, and bytes that are valid UTF-8 give the text they encode.
/// What invalid bytes give is not spelled out here.
#[verifier::external_body]
pub(crate) fn decode_lossy(bytes: &Vec<u8>) -> (text: String)
    ensures
        text@ == utf8_lossy(bytes@),
        valid_utf8(bytes@) ==> text@ == decode_utf8(bytes@),
{
    String::from_utf8_lossy(bytes.as_slice()).into_owned()
}

} // verus!
