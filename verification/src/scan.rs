//! How deep a formula is, read off its text before the grammar sees it.
//!
//! The parser of the grammar is recursive. It calls itself for what stands
//! inside `(` or `{`, for the operand of a sign `-` or `!` that stands in
//! front of an operand, and for the body of a closure that `|` begins. What
//! stands inside `{ }` it reads twice. A scan of the text from left to right
//! takes the measure of all of this: it passes over comments, tells a sign in
//! front of an operand from one between two operands, and keeps count.

use crate::text::{blank, is_blank};
use vstd::prelude::*;

verus! {

/// What the scan is in the middle of.
#[derive(Debug, Clone, Copy, PartialEq, Eq, Structural)]
pub enum Mode {
    /// The formula itself.
    Code,
    /// A comment from `//` to the end of the line.
    Line,
    /// The `/` of a `/*` has been read, the `*` comes next.
    BlockOpen,
    /// A comment from `/*` to `*/`.
    Block,
    /// The `*` of a `*/` has been read, the `/` comes next.
    BlockClose,
    /// The first `|` of an operator `||` has been read, the second comes
    /// next.
    SecondBar,
}

/// The state of the scan after a part of the text.
pub struct ScanView {
    pub mode: Mode,
    /// Whether an operand has just ended, so that a sign is an operator
    /// between two operands.
    pub operand: bool,
    /// The brackets `(` and `{` that are open.
    pub open: nat,
    /// The signs and closures that hold on while a bracket they stand before
    /// is read; they are never given up again.
    pub held: nat,
    /// The signs in front of the operand that is being read.
    pub run: nat,
    /// The largest sum of `open`, `held` and `run` so far.
    pub deepest: nat,
    /// The `{` so far.
    pub blocks: nat,
}

/// The state of the scan, as it runs.
#[derive(Debug, Clone, Copy)]
pub struct Scan {
    pub mode: Mode,
    pub operand: bool,
    pub open: usize,
    pub held: usize,
    pub run: usize,
    pub deepest: usize,
    pub blocks: usize,
}

impl View for Scan {
    type V = ScanView;

    open spec fn view(&self) -> ScanView {
        ScanView {
            mode: self.mode,
            operand: self.operand,
            open: self.open as nat,
            held: self.held as nat,
            run: self.run as nat,
            deepest: self.deepest as nat,
            blocks: self.blocks as nat,
        }
    }
}

/// Whether the character can stand in a name or a number: a letter, a digit,
/// `_` or `.`.
pub open spec fn is_word(c: char) -> bool {
    ||| 'a' <= c <= 'z'
    ||| 'A' <= c <= 'Z'
    ||| '0' <= c <= '9'
    ||| c == '_'
    ||| c == '.'
}

/// The state before the first character.
pub open spec fn start() -> ScanView {
    ScanView { mode: Mode::Code, operand: false, open: 0, held: 0, run: 0, deepest: 0, blocks: 0 }
}

/// The state with `deepest` brought up to the present depth.
pub open spec fn noted(s: ScanView) -> ScanView {
    let depth = s.open + s.held + s.run;
    ScanView { deepest: if depth > s.deepest { depth } else { s.deepest }, ..s }
}

/// The state after one more character `c`, which `next` follows.
pub open spec fn stepped(s: ScanView, c: char, next: Option<char>) -> ScanView {
    match s.mode {
        Mode::Line => if c == '\n' {
            ScanView { mode: Mode::Code, ..s }
        } else {
            s
        },
        Mode::BlockOpen => ScanView { mode: Mode::Block, ..s },
        Mode::Block => if c == '*' && next == Some('/') {
            ScanView { mode: Mode::BlockClose, ..s }
        } else {
            s
        },
        Mode::BlockClose => ScanView { mode: Mode::Code, ..s },
        Mode::SecondBar => ScanView { mode: Mode::Code, ..s },
        Mode::Code => if is_blank(c) {
            s
        } else if c == '/' && next == Some('/') {
            ScanView { mode: Mode::Line, ..s }
        } else if c == '/' && next == Some('*') {
            ScanView { mode: Mode::BlockOpen, ..s }
        } else if c == '(' || c == '{' {
            noted(
                ScanView {
                    operand: false,
                    open: s.open + 1,
                    held: s.held + s.run,
                    run: 0,
                    blocks: if c == '{' {
                        s.blocks + 1
                    } else {
                        s.blocks
                    },
                    ..s
                },
            )
        } else if c == ')' || c == '}' {
            ScanView {
                operand: true,
                open: if s.open > 0 {
                    (s.open - 1) as nat
                } else {
                    0
                },
                run: 0,
                ..s
            }
        } else if c == '-' || c == '!' {
            if s.operand {
                ScanView { operand: false, run: 0, ..s }
            } else {
                noted(ScanView { run: s.run + 1, ..s })
            }
        } else if c == '|' {
            if s.operand {
                ScanView {
                    mode: if next == Some('|') {
                        Mode::SecondBar
                    } else {
                        Mode::Code
                    },
                    operand: false,
                    run: 0,
                    ..s
                }
            } else {
                noted(ScanView { held: s.held + 1, ..s })
            }
        } else if is_word(c) {
            ScanView { operand: true, ..s }
        } else {
            ScanView {
                operand: false,
                run: if s.operand {
                    0
                } else {
                    s.run
                },
                ..s
            }
        },
    }
}

/// The character that follows position `i`, if there is one.
pub open spec fn following(text: Seq<char>, i: int) -> Option<char> {
    if i + 1 < text.len() {
        Some(text[i + 1])
    } else {
        None
    }
}

/// The state after the first `upto` characters of a text.
pub open spec fn scanned(text: Seq<char>, upto: int) -> ScanView
    decreases upto,
{
    if upto <= 0 {
        start()
    } else {
        stepped(scanned(text, upto - 1), text[upto - 1], following(text, upto - 1))
    }
}

/// A bound on the depth to which the parser calls itself on a text: the most
/// brackets open at one place, with the signs and closures in front of
/// them. A sign between two operands does not count, nor does anything in a
/// comment.
pub open spec fn nesting(text: Seq<char>) -> nat {
    scanned(text, text.len() as int).deepest
}

/// The number of `{` in a text, comments left aside.
pub open spec fn blocks(text: Seq<char>) -> nat {
    scanned(text, text.len() as int).blocks
}

/// Whether the character can stand in a name or a number.
fn word(c: char) -> (r: bool)
    ensures
        r == is_word(c),
{
    ('a' <= c && c <= 'z') || ('A' <= c && c <= 'Z') || ('0' <= c && c <= '9') || c == '_' || c
        == '.'
}

/// The state with `deepest` brought up to the present depth.
fn note(s: Scan) -> (r: Scan)
    requires
        s.open + s.held + s.run <= usize::MAX,
    ensures
        r@ == noted(s@),
{
    let depth: usize = s.open + s.held + s.run;
    Scan { deepest: if depth > s.deepest { depth } else { s.deepest }, ..s }
}

/// The state after one more character.
fn step(s: Scan, c: char, next: Option<char>) -> (r: Scan)
    requires
        s.open + s.held + s.run < usize::MAX,
        s.blocks < usize::MAX,
    ensures
        r@ == stepped(s@, c, next),
        r.open + r.held + r.run <= s.open + s.held + s.run + 1,
        r.blocks <= s.blocks + 1,
{
    let second: bool = match next {
        Some(n) => n == '/',
        None => false,
    };
    let star: bool = match next {
        Some(n) => n == '*',
        None => false,
    };
    let bar: bool = match next {
        Some(n) => n == '|',
        None => false,
    };
    match s.mode {
        Mode::Line => if c == '\n' {
            Scan { mode: Mode::Code, ..s }
        } else {
            s
        },
        Mode::BlockOpen => Scan { mode: Mode::Block, ..s },
        Mode::Block => if c == '*' && second {
            Scan { mode: Mode::BlockClose, ..s }
        } else {
            s
        },
        Mode::BlockClose => Scan { mode: Mode::Code, ..s },
        Mode::SecondBar => Scan { mode: Mode::Code, ..s },
        Mode::Code => if blank(c) {
            s
        } else if c == '/' && second {
            Scan { mode: Mode::Line, ..s }
        } else if c == '/' && star {
            Scan { mode: Mode::BlockOpen, ..s }
        } else if c == '(' || c == '{' {
            note(
                Scan {
                    operand: false,
                    open: s.open + 1,
                    held: s.held + s.run,
                    run: 0,
                    blocks: if c == '{' {
                        s.blocks + 1
                    } else {
                        s.blocks
                    },
                    ..s
                },
            )
        } else if c == ')' || c == '}' {
            Scan {
                operand: true,
                open: if s.open > 0 {
                    s.open - 1
                } else {
                    0
                },
                run: 0,
                ..s
            }
        } else if c == '-' || c == '!' {
            if s.operand {
                Scan { operand: false, run: 0, ..s }
            } else {
                note(Scan { run: s.run + 1, ..s })
            }
        } else if c == '|' {
            if s.operand {
                Scan {
                    mode: if bar {
                        Mode::SecondBar
                    } else {
                        Mode::Code
                    },
                    operand: false,
                    run: 0,
                    ..s
                }
            } else {
                note(Scan { held: s.held + 1, ..s })
            }
        } else if word(c) {
            Scan { operand: true, ..s }
        } else {
            Scan {
                operand: false,
                run: if s.operand {
                    0
                } else {
                    s.run
                },
                ..s
            }
        },
    }
}

/// Scans a text from its first character to its last.
pub fn scan(text: &Vec<char>) -> (r: Scan)
    ensures
        r@ == scanned(text@, text.len() as int),
        r.deepest == nesting(text@),
        r.blocks == blocks(text@),
{
    let mut s = Scan {
        mode: Mode::Code,
        operand: false,
        open: 0,
        held: 0,
        run: 0,
        deepest: 0,
        blocks: 0,
    };
    let mut i: usize = 0;
    while i < text.len()
        invariant
            i <= text.len(),
            s@ == scanned(text@, i as int),
            s.open + s.held + s.run <= i,
            s.blocks <= i,
        decreases text.len() - i,
    {
        let next: Option<char> = if i + 1 < text.len() {
            Some(text[i + 1])
        } else {
            None
        };
        s = step(s, text[i], next);
        i += 1;
    }
    s
}

} // verus!
