//! Scripts: files of statements, each ended by a semicolon at the end of a
//! line.

use vstd::prelude::*;
use crate::text;

verus! {

/// What has been read of a script: the statements that are complete, and the
/// beginning of the one that is not.
pub struct Reading {
    pub complete: Seq<Seq<char>>,
    pub pending: Seq<char>,
}

/// Whether a line is a comment: it is, when it begins with two hyphens.
pub open spec fn spec_is_comment(line: Seq<char>) -> bool {
    line.len() >= 2 && line[0] == '-' && line[1] == '-'
}

/// Whether a text is nothing but line ends.
pub open spec fn spec_is_blank(s: Seq<char>) -> bool {
    forall|i: int| 0 <= i < s.len() ==> s[i] == '\n'
}

/// What has been read after one more line. A comment is passed over. Any
/// other line joins the pending statement, without its trailing white
/// space: where it ends in a semicolon the statement is complete, and where
/// it does not a line end follows it.
pub open spec fn spec_read_line(before: Reading, line: Seq<char>) -> Reading {
    if spec_is_comment(line) {
        before
    } else {
        let kept = text::spec_trim_end(line);
        let grown = before.pending + kept;
        if kept.len() > 0 && kept.last() == ';' {
            Reading { complete: before.complete.push(grown), pending: Seq::empty() }
        } else {
            Reading { complete: before.complete, pending: grown.push('\n') }
        }
    }
}

/// What has been read after a run of lines.
pub open spec fn spec_read_lines(lines: Seq<Seq<char>>) -> Reading
    decreases lines.len(),
{
    if lines.len() == 0 {
        Reading { complete: Seq::empty(), pending: Seq::empty() }
    } else {
        spec_read_line(spec_read_lines(lines.drop_last()), lines.last())
    }
}

/// The statements of a script, in order: the complete ones, and behind them
/// what is left at the end without a semicolon, unless that is blank.
pub open spec fn spec_statements(lines: Seq<Seq<char>>) -> Seq<Seq<char>> {
    let read = spec_read_lines(lines);
    if spec_is_blank(read.pending) {
        read.complete
    } else {
        read.complete.push(read.pending)
    }
}

/// The texts of a list of strings.
pub open spec fn spec_texts(strings: Seq<String>) -> Seq<Seq<char>> {
    strings.map_values(|s: String| s@)
}

fn is_comment(line: &Vec<char>) -> (comment: bool)
    ensures
        comment == spec_is_comment(line@),
{
    line.len() >= 2 && line[0] == '-' && line[1] == '-'
}

fn is_blank(s: &Vec<char>) -> (blank: bool)
    ensures
        blank == spec_is_blank(s@),
{
    let mut i: usize = 0;
    while i < s.len()
        invariant
            i <= s.len(),
            forall|j: int| 0 <= j < i ==> s@[j] == '\n',
        decreases s.len() - i,
    {
        if s[i] != '\n' {
            return false;
        }
        i += 1;
    }
    true
}

/// Splits a script, given line by line without the line ends, into its
/// statements.
pub fn statements(lines: &Vec<String>) -> (found: Vec<String>)
    ensures
        spec_texts(found@) == spec_statements(spec_texts(lines@)),
{
    let ghost all = spec_texts(lines@);
    let mut found: Vec<String> = Vec::new();
    let mut pending: Vec<char> = Vec::new();
    let mut i: usize = 0;
    assert(spec_texts(found@) =~= Seq::<Seq<char>>::empty());
    assert(all.take(0) =~= Seq::<Seq<char>>::empty());
    while i < lines.len()
        invariant
            i <= lines.len(),
            all == spec_texts(lines@),
            spec_read_lines(all.take(i as int)) == (Reading {
                complete: spec_texts(found@),
                pending: pending@,
            }),
        decreases lines.len() - i,
    {
        assert(all.take(i as int + 1).drop_last() =~= all.take(i as int));
        assert(all.take(i as int + 1).last() == lines@[i as int]@);
        let line = text::to_chars(lines[i].as_str());
        if !is_comment(&line) {
            let kept = text::trim_end(&line);
            text::extend(&mut pending, &kept);
            if kept.len() > 0 && kept[kept.len() - 1] == ';' {
                let ghost before = spec_texts(found@);
                let statement = text::to_string(&pending);
                found.push(statement);
                pending = Vec::new();
                assert(spec_texts(found@) =~= before.push(statement@));
            } else {
                pending.push('\n');
            }
        }
        i += 1;
    }
    assert(all.take(lines.len() as int) =~= all);
    if !is_blank(&pending) {
        let ghost before = spec_texts(found@);
        let statement = text::to_string(&pending);
        found.push(statement);
        assert(spec_texts(found@) =~= before.push(statement@));
    }
    found
}

} // verus!
