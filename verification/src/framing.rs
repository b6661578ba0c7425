//! Line framing for the engine's text protocol.
//!
//! A command is a single line of protocol text; it is written to the
//! process followed by one newline terminator. A response body is the
//! newline-joined concatenation of the output lines collected before the
//! blank-line terminator, with no trailing separator.

use vstd::prelude::*;
use vstd::string::StrSliceExecFns;
use vstd::string::StringExecFns;

verus! {

/// A command is a single protocol line: it holds no newline character.
pub open spec fn single_line(s: Seq<char>) -> bool {
    forall|i: int| 0 <= i < s.len() ==> s[i] != '\n'
}

/// The character views of a sequence of owned lines.
pub open spec fn views_of(lines: Seq<String>) -> Seq<Seq<char>> {
    lines.map_values(|l: String| l@)
}

/// The newline-joined concatenation of `lines`, with no trailing separator.
pub open spec fn joined(lines: Seq<Seq<char>>) -> Seq<char>
    decreases lines.len(),
{
    if lines.len() == 0 {
        Seq::empty()
    } else if lines.len() == 1 {
        lines[0]
    } else {
        lines[0] + seq!['\n'] + joined(lines.drop_first())
    }
}

/// Joining one more line appends a separator exactly when lines were
/// already present.
pub proof fn lemma_joined_push(lines: Seq<Seq<char>>, line: Seq<char>)
    ensures
        joined(lines.push(line)) == if lines.len() == 0 {
            line
        } else {
            joined(lines) + seq!['\n'] + line
        },
    decreases lines.len(),
{
    if lines.len() == 0 {
        assert(lines.push(line)[0] == line);
        assert(joined(lines.push(line)) == line);
    } else {
        let pushed = lines.push(line);
        assert(pushed.drop_first() =~= lines.drop_first().push(line));
        lemma_joined_push(lines.drop_first(), line);
        if lines.len() == 1 {
            assert(joined(lines) == lines[0]);
            assert(joined(pushed) == pushed[0] + seq!['\n'] + joined(pushed.drop_first()));
            assert(joined(pushed) == lines[0] + seq!['\n'] + line);
        } else {
            assert(joined(pushed) == pushed[0] + seq!['\n'] + joined(pushed.drop_first()));
            assert(joined(lines) + seq!['\n'] + line == (lines[0] + seq!['\n'] + joined(
                lines.drop_first(),
            )) + seq!['\n'] + line);
            assert((lines[0] + seq!['\n'] + joined(lines.drop_first())) + seq!['\n'] + line
                =~= lines[0] + seq!['\n'] + (joined(lines.drop_first()) + seq!['\n'] + line));
        }
    }
}

/// Whether `s` is a single protocol line, decided character by character.
pub fn is_single_line(s: &str) -> (r: bool)
    ensures
        r == single_line(s@),
{
    let len: usize = s.unicode_len();
    let mut i: usize = 0;
    while i < len
        invariant
            len == s@.len(),
            i <= len,
            forall|j: int| 0 <= j < i ==> s@[j] != '\n',
        decreases len - i,
    {
        if s.get_char(i) == '\n' {
            return false;
        }
        i = i + 1;
    }
    true
}

/// Joins the collected output lines with newline separators, no trailing
/// terminator: the body of one response.
pub fn join_lines(lines: &Vec<String>) -> (r: String)
    ensures
        r@ == joined(views_of(lines@)),
{
    let mut out = String::new();
    let mut i: usize = 0;
    while i < lines.len()
        invariant
            i <= lines@.len(),
            out@ == joined(views_of(lines@.take(i as int))),
        decreases lines@.len() - i,
    {
        proof {
            reveal_strlit("\n");
            assert(views_of(lines@.take(i + 1)) =~= views_of(lines@.take(i as int)).push(
                lines@[i as int]@,
            ));
            lemma_joined_push(views_of(lines@.take(i as int)), lines@[i as int]@);
        }
        if i > 0 {
            proof {
                assert(views_of(lines@.take(i as int)).len() == i);
                assert("\n"@ =~= seq!['\n']);
            }
            out.append("\n");
        } else {
            proof {
                assert(views_of(lines@.take(0)) =~= Seq::<Seq<char>>::empty());
            }
        }
        let line: &String = &lines[i];
        out.append(line.as_str());
        i = i + 1;
    }
    proof {
        assert(lines@.take(lines@.len() as int) =~= lines@);
    }
    out
}

/// A command as it is written to the process: the line followed by the
/// single newline terminator.
pub fn frame_command(command: &str) -> (r: String)
    ensures
        r@ == command@ + seq!['\n'],
{
    let mut out = command.to_owned();
    out.append("\n");
    proof {
        reveal_strlit("\n");
        assert("\n"@ =~= seq!['\n']);
    }
    out
}

} // verus!
