//! A pointer into a manifest's text where it failed to parse.
use vstd::prelude::*;
use crate::cargo::{joined, join_strings};
use crate::text::push_str;

verus! {

/// What `str::lines` makes of a text.
pub uninterp spec fn lines_of(s: Seq<char>) -> Seq<Seq<char>>;

/// Relies on `str::lines`: the text cut at each line ending.
#[verifier::external_body]
fn split_lines(s: &str) -> (r: Vec<String>)
    ensures
        r.deep_view() == lines_of(s@),
{
    s.lines().map(|l| l.to_string()).collect()
}

/// Where parsing failed: line and column, and the text that was parsed.
#[derive(Clone, Debug)]
pub struct ErrorHint {
    pub line: usize,
    pub column: usize,
    pub source: String,
}

/// The lines from two before `line` (or from the first) through `line`.
pub open spec fn summary_window(lines: Seq<Seq<char>>, line: int) -> Seq<Seq<char>> {
    let back = if line < 2 { line } else { 2 };
    lines.subrange(line - back, line + 1)
}

/// `column` underscores and a caret.
pub open spec fn hint_text(column: nat) -> Seq<char> {
    Seq::new(column, |i: int| '_').push('^')
}

/// The lines around `line`, joined by line breaks.
pub fn summary_of_lines(lines: &Vec<String>, line: usize) -> (r: String)
    requires
        line < lines@.len(),
    ensures
        r@ == joined(summary_window(lines.deep_view(), line as int), "\n"@),
{
    let back: usize = if line < 2 { line } else { 2 };
    let start: usize = line - back;
    let mut window: Vec<String> = Vec::new();
    let mut k: usize = 0;
    while k <= back
        invariant
            line < lines@.len(),
            back <= 2,
            back <= line,
            start == line - back,
            k <= back + 1,
            window.deep_view() == lines.deep_view().subrange(start as int, start + k),
        decreases back + 1 - k,
    {
        let ghost before = window.deep_view();
        window.push(lines[start + k].clone());
        assert(window.deep_view() =~= before.push(lines@[start + k]@));
        k = k + 1;
        assert(window.deep_view() =~= lines.deep_view().subrange(start as int, start + k));
    }
    join_strings(&window, "\n")
}

impl ErrorHint {
    pub fn new(line: usize, column: usize, source: String) -> (r: ErrorHint)
        ensures
            r.line == line,
            r.column == column,
            r.source == source,
    {
        ErrorHint { line, column, source }
    }

    /// The lines of the source around the failing line; `None` where the
    /// source has no such line.
    pub fn source_summary(&self) -> (r: Option<String>)
        ensures
            (self.line as int) < lines_of(self.source@).len() ==> (r matches Some(s) && s@ == joined(
                summary_window(lines_of(self.source@), self.line as int),
                "\n"@,
            )),
            (self.line as int) >= lines_of(self.source@).len() ==> r is None,
    {
        let lines = split_lines(self.source.as_str());
        if self.line < lines.len() {
            Some(summary_of_lines(&lines, self.line))
        } else {
            None
        }
    }

    /// A marker under the failing column.
    pub fn hint(&self) -> (r: String)
        ensures
            r@ == hint_text(self.column as nat),
    {
        let mut s = String::new();
        let mut i: usize = 0;
        proof {
            reveal_strlit("_");
            reveal_strlit("^");
        }
        while i < self.column
            invariant
                i <= self.column,
                s@ == Seq::new(i as nat, |j: int| '_'),
            decreases self.column - i,
        {
            proof {
                reveal_strlit("_");
            }
            push_str(&mut s, "_");
            i = i + 1;
            assert(s@ =~= Seq::new(i as nat, |j: int| '_'));
        }
        push_str(&mut s, "^");
        assert(s@ =~= hint_text(self.column as nat));
        s
    }
}

} // verus!
