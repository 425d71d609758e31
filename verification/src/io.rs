//! Files: whether a path leads to one, and the lines of a candidate file.

use std::path::Path;
use vstd::prelude::*;
use vstd::string::StringExecFns;
use crate::ssh::texts;

verus! {

/// Whether `c` is white space: a character with the Unicode property
/// `White_Space`.
pub open spec fn spec_is_whitespace(c: char) -> bool {
    ||| c == ' '
    ||| '\t' <= c <= '\r'
    ||| c == '\u{85}'
    ||| c == '\u{A0}'
    ||| c == '\u{1680}'
    ||| '\u{2000}' <= c <= '\u{200A}'
    ||| c == '\u{2028}'
    ||| c == '\u{2029}'
    ||| c == '\u{202F}'
    ||| c == '\u{205F}'
    ||| c == '\u{3000}'
}

/// `line` without the white space at its end.
pub open spec fn trim_end(line: Seq<char>) -> Seq<char>
    decreases line.len(),
{
    if line.len() > 0 && spec_is_whitespace(line.last()) {
        trim_end(line.drop_last())
    } else {
        line
    }
}

/// What follows the last line feed of `text`: the line that no line feed has
/// ended yet.
pub open spec fn open_line(text: Seq<char>) -> Seq<char>
    decreases text.len(),
{
    if text.len() == 0 || text.last() == '\n' {
        Seq::empty()
    } else {
        open_line(text.drop_last()).push(text.last())
    }
}

/// The lines of `text` that a line feed ends, in their order, each without
/// its line feed and without the white space at its end.
pub open spec fn closed_lines(text: Seq<char>) -> Seq<Seq<char>>
    decreases text.len(),
{
    if text.len() == 0 {
        Seq::empty()
    } else if text.last() == '\n' {
        closed_lines(text.drop_last()).push(trim_end(open_line(text.drop_last())))
    } else {
        closed_lines(text.drop_last())
    }
}

/// The lines of `text`, each without the white space at its end. A line
/// feed ends a line; what follows the last line feed is a line too, unless
/// nothing follows it.
pub open spec fn lines_of(text: Seq<char>) -> Seq<Seq<char>> {
    if open_line(text).len() > 0 {
        closed_lines(text).push(trim_end(open_line(text)))
    } else {
        closed_lines(text)
    }
}

/// White space at the end of a line is trimmed away: a line that ends in
/// no white space, followed by white space alone, trims to itself.
pub proof fn lemma_trim_end(line: Seq<char>, blank: Seq<char>)
    requires
        line.len() == 0 || !spec_is_whitespace(line.last()),
        forall|i: int| 0 <= i < blank.len() ==> spec_is_whitespace(blank[i]),
    ensures
        trim_end(line + blank) == line,
    decreases blank.len(),
{
    if blank.len() == 0 {
        assert(line + blank =~= line);
    } else {
        assert((line + blank).drop_last() =~= line + blank.drop_last());
        assert((line + blank).last() == blank.last());
        lemma_trim_end(line, blank.drop_last());
    }
}

/// Whether `c` is white space.
#[verifier::when_used_as_spec(spec_is_whitespace)]
pub fn is_whitespace(c: char) -> (white: bool)
    ensures
        white == spec_is_whitespace(c),
{
    c == ' ' || ('\t' <= c && c <= '\r') || c == '\u{85}' || c == '\u{A0}' || c == '\u{1680}'
        || ('\u{2000}' <= c && c <= '\u{200A}') || c == '\u{2028}' || c == '\u{2029}'
        || c == '\u{202F}' || c == '\u{205F}' || c == '\u{3000}'
}

/// `String::push`: the character is added at the end of the string.
#[verifier::external_body]
fn push_char(text: &mut String, c: char)
    ensures
        final(text)@ == old(text)@.push(c),
{
    text.push(c)
}

/// `Path::exists`: whether the path leads to something on disk. What it
/// returns depends on the disk, so nothing is stated of it.
#[verifier::external_body]
fn path_exists(path: &str) -> bool {
    Path::new(path).exists()
}

/// `Path::is_file`: whether the path leads to a regular file. What it
/// returns depends on the disk, so nothing is stated of it.
#[verifier::external_body]
fn path_is_file(path: &str) -> bool {
    Path::new(path).is_file()
}

/// The functions on files and on what files hold.
pub struct File;

impl File {
    /// Whether `path` leads to something on disk.
    pub fn is_present(path: &String) -> bool {
        path_exists(path.as_str())
    }

    /// Whether `path` leads to a regular file. The disk is asked for the
    /// kind only of what exists.
    pub fn is_file(path: &String) -> bool {
        File::is_present(path) && path_is_file(path.as_str())
    }

    /// The lines of `content`, each without the white space at its end.
    pub fn read_lines(content: &str) -> (lines: Vec<String>)
        ensures
            texts(lines@) == lines_of(content@),
    {
        let mut lines: Vec<String> = Vec::new();
        let mut line = String::new();
        let mut blank = String::new();
        let mut open = false;
        let ghost mut seen: Seq<char> = Seq::empty();
        for c in it: content.chars()
            invariant
                seen == it.seq().take(it.index()),
                texts(lines@) == closed_lines(seen),
                line@ + blank@ == open_line(seen),
                line@.len() == 0 || !spec_is_whitespace(line@.last()),
                forall|i: int| 0 <= i < blank@.len() ==> spec_is_whitespace(blank@[i]),
                open == (open_line(seen).len() > 0),
        {
            proof {
                assert(it.seq().take(it.index() + 1) =~= seen.push(c));
                assert(seen.push(c).drop_last() =~= seen);
                seen = seen.push(c);
            }
            if c == '\n' {
                proof {
                    lemma_trim_end(line@, blank@);
                }
                let ghost held = lines@;
                lines.push(line);
                assert(texts(lines@) =~= texts(held).push(line@));
                line = String::new();
                blank = String::new();
                open = false;
                assert(line@ + blank@ =~= Seq::<char>::empty());
            } else if is_whitespace(c) {
                let ghost before = blank@;
                push_char(&mut blank, c);
                open = true;
                assert(line@ + blank@ =~= (line@ + before).push(c));
            } else {
                let ghost before = line@ + blank@;
                line.append(blank.as_str());
                push_char(&mut line, c);
                blank = String::new();
                open = true;
                assert(line@ + blank@ =~= before.push(c));
            }
        }
        assert(seen =~= content@);
        if open {
            proof {
                lemma_trim_end(line@, blank@);
            }
            let ghost held = lines@;
            lines.push(line);
            assert(texts(lines@) =~= texts(held).push(line@));
        }
        lines
    }
}

/// The candidate passwords of a file: the lines of its content, or none if
/// the file does not exist.
pub fn load(content: Option<String>) -> (lines: Vec<String>)
    ensures
        texts(lines@) == match content {
            Some(text) => lines_of(text@),
            None => Seq::empty(),
        },
{
    match content {
        Some(text) => File::read_lines(text.as_str()),
        None => {
            let lines: Vec<String> = Vec::new();
            assert(texts(lines@) =~= Seq::<Seq<char>>::empty());
            lines
        },
    }
}

} // verus!
