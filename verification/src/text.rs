//! Cutting a text at the `@` sign, and taking parentheses and comments off a
//! leaf.

use vstd::prelude::*;
use vstd::std_specs::iter::IteratorSpec;

verus! {

/// The position of the first `@` at or after `from`, or the length of the
/// text where there is none.
pub open spec fn first_at(text: Seq<char>, from: int) -> int
    decreases text.len() - from,
{
    if from >= text.len() {
        text.len() as int
    } else if text[from] == '@' {
        from
    } else {
        first_at(text, from + 1)
    }
}

/// What stands before the first `@` at or after `from`.
pub open spec fn segment(text: Seq<char>, from: int) -> Seq<char> {
    text.subrange(from, first_at(text, from))
}

/// Whether the character is a space, a tab, a line feed, a form feed or a
/// carriage return.
pub open spec fn is_blank(c: char) -> bool {
    c == ' ' || c == '\t' || c == '\n' || c == '\x0C' || c == '\r'
}

/// What the search for the start of a leaf is passing over.
pub enum Passing {
    /// Blanks and opening parentheses.
    Code,
    /// A comment from `//` to the end of the line.
    Line,
    /// A comment from `/*` to `*/`.
    Block,
}

/// The position at or after `from` where a leaf starts: behind the blanks,
/// the `(` and the comments that stand before it. It is the length of the
/// text where nothing else follows.
pub open spec fn leaf_start(text: Seq<char>, from: int, passing: Passing) -> int
    decreases text.len() - from,
{
    if from >= text.len() {
        text.len() as int
    } else {
        match passing {
            Passing::Line => if text[from] == '\n' {
                leaf_start(text, from + 1, Passing::Code)
            } else {
                leaf_start(text, from + 1, Passing::Line)
            },
            Passing::Block => if text[from] == '*' && from + 1 < text.len() && text[from + 1]
                == '/' {
                leaf_start(text, from + 2, Passing::Code)
            } else {
                leaf_start(text, from + 1, Passing::Block)
            },
            Passing::Code => if text[from] == '(' || is_blank(text[from]) {
                leaf_start(text, from + 1, Passing::Code)
            } else if text[from] == '/' && from + 1 < text.len() && text[from + 1] == '/' {
                leaf_start(text, from + 2, Passing::Line)
            } else if text[from] == '/' && from + 1 < text.len() && text[from + 1] == '*' {
                leaf_start(text, from + 2, Passing::Block)
            } else {
                from
            },
        }
    }
}

/// The position at or after `from` where a leaf ends: at the first blank,
/// `)` or `/`, or at the end of the text. Neither a name nor a number holds
/// one of these.
pub open spec fn leaf_end(text: Seq<char>, from: int) -> int
    decreases text.len() - from,
{
    if from >= text.len() {
        text.len() as int
    } else if text[from] == ')' || text[from] == '/' || is_blank(text[from]) {
        from
    } else {
        leaf_end(text, from + 1)
    }
}

/// The leaf of a text that holds one leaf in parentheses, with blanks and
/// comments where the grammar allows them: `( /* spot */ (btcusdt) )` is
/// `btcusdt`.
pub open spec fn bare(text: Seq<char>) -> Seq<char> {
    let start = leaf_start(text, 0, Passing::Code);
    text.subrange(start, leaf_end(text, start))
}

/// `first_at` lies between `from` and the end, no `@` stands before it, and
/// one stands at it unless it is the end.
pub proof fn lemma_first_at(text: Seq<char>, from: int)
    requires
        0 <= from <= text.len(),
    ensures
        from <= first_at(text, from) <= text.len(),
        forall|j: int| from <= j < first_at(text, from) ==> text[j] != '@',
        first_at(text, from) < text.len() ==> text[first_at(text, from)] == '@',
    decreases text.len() - from,
{
    if from < text.len() && text[from] != '@' {
        lemma_first_at(text, from + 1);
    }
}

/// The characters of a text, one by one.
pub fn characters(text: &str) -> (r: Vec<char>)
    ensures
        r@ == text@,
{
    broadcast use vstd::string::group_string_axioms;

    let mut out: Vec<char> = Vec::new();
    let mut rest = text.chars();
    assert(text@.skip(0) =~= text@);
    loop
        invariant
            out.len() <= text@.len(),
            out@ == text@.take(out.len() as int),
            rest.remaining() == text@.skip(out.len() as int),
        decreases text@.len() - out.len(),
    {
        let ghost before = rest;
        let next = rest.next();
        assert(vstd::string::next_post(&before, &rest, next));
        match next {
            None => {
                assert(text@.take(out.len() as int) =~= text@);
                return out;
            },
            Some(c) => {
                assert(text@.skip(out.len() as int).drop_first() =~= text@.skip(out.len() + 1));
                assert(text@.take(out.len() + 1) =~= text@.take(out.len() as int).push(c));
                out.push(c);
            },
        }
    }
}

/// The position of the first `@` at or after `from`.
pub(crate) fn find_at(text: &Vec<char>, from: usize) -> (r: usize)
    requires
        from <= text.len(),
    ensures
        r == first_at(text@, from as int),
        from <= r <= text.len(),
{
    let mut i: usize = from;
    while i < text.len()
        invariant
            from <= i <= text.len(),
            first_at(text@, from as int) == first_at(text@, i as int),
        decreases text.len() - i,
    {
        if text[i] == '@' {
            return i;
        }
        i += 1;
    }
    i
}

/// Whether the character is blank.
pub(crate) fn blank(c: char) -> (r: bool)
    ensures
        r == is_blank(c),
{
    c == ' ' || c == '\t' || c == '\n' || c == '\x0C' || c == '\r'
}

/// The position where the leaf of a text starts.
fn find_leaf_start(text: &Vec<char>) -> (r: usize)
    ensures
        r == leaf_start(text@, 0, Passing::Code),
        r <= text.len(),
{
    let mut i: usize = 0;
    let mut passing = Passing::Code;
    while i < text.len()
        invariant
            i <= text.len(),
            leaf_start(text@, 0, Passing::Code) == leaf_start(text@, i as int, passing),
        decreases text.len() - i,
    {
        let c: char = text[i];
        let pair: bool = i + 1 < text.len();
        match passing {
            Passing::Line => {
                if c == '\n' {
                    passing = Passing::Code;
                }
                i += 1;
            },
            Passing::Block => {
                if c == '*' && pair && text[i + 1] == '/' {
                    passing = Passing::Code;
                    i += 2;
                } else {
                    i += 1;
                }
            },
            Passing::Code => {
                if c == '(' || blank(c) {
                    i += 1;
                } else if c == '/' && pair && text[i + 1] == '/' {
                    passing = Passing::Line;
                    i += 2;
                } else if c == '/' && pair && text[i + 1] == '*' {
                    passing = Passing::Block;
                    i += 2;
                } else {
                    return i;
                }
            },
        }
    }
    i
}

/// The position where the leaf that starts at `from` ends.
fn find_leaf_end(text: &Vec<char>, from: usize) -> (r: usize)
    requires
        from <= text.len(),
    ensures
        r == leaf_end(text@, from as int),
        from <= r <= text.len(),
{
    let mut i: usize = from;
    while i < text.len()
        invariant
            from <= i <= text.len(),
            leaf_end(text@, from as int) == leaf_end(text@, i as int),
        decreases text.len() - i,
    {
        let c: char = text[i];
        if c == ')' || c == '/' || blank(c) {
            return i;
        }
        i += 1;
    }
    i
}

/// A copy of the characters from `from` up to `to`.
pub(crate) fn copy_range(text: &str, from: usize, to: usize) -> (r: String)
    requires
        from <= to <= text@.len(),
    ensures
        r@ == text@.subrange(from as int, to as int),
{
    text.substring_char(from, to).to_owned()
}

/// A copy of the leaf of a text, without the parentheses, blanks and
/// comments around it.
pub fn strip_parentheses(text: &str) -> (r: String)
    ensures
        r@ == bare(text@),
{
    let chars = characters(text);
    let start: usize = find_leaf_start(&chars);
    let end: usize = find_leaf_end(&chars, start);
    copy_range(text, start, end)
}

} // verus!
