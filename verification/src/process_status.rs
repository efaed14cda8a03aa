//! The effective user of a process, from the kernel's status text.

use crate::bytes::{all_digits, begins_with, has_prefix, is_all_digits, tail};
use crate::decimal::{decimal_value, parse_u32};
use vstd::prelude::*;

verus! {

/// `Uid:`, in ASCII.
pub open spec fn uid_prefix() -> Seq<u8> {
    seq![85u8, 105u8, 100u8, 58u8]
}

/// Space, tab, line feed, form feed and carriage return.
pub open spec fn is_blank(byte: u8) -> bool {
    byte == 32 || byte == 9 || byte == 10 || byte == 12 || byte == 13
}

/// The end of the line that begins at `from`: the next line feed, or the end.
pub open spec fn line_end(text: Seq<u8>, from: int) -> int
    decreases text.len() - from,
{
    if from < 0 || from >= text.len() || text[from] == 10 {
        from
    } else {
        line_end(text, from + 1)
    }
}

/// What follows `Uid:` on the first line that begins with it, at or after
/// `from`.
pub open spec fn uid_line(text: Seq<u8>, from: int) -> Option<Seq<u8>>
    decreases text.len() - from,
{
    if from < 0 || from >= text.len() {
        None
    } else {
        let end = line_end(text, from);
        let line = text.subrange(from, end);
        if has_prefix(line, uid_prefix()) {
            Some(line.subrange(4, line.len() as int))
        } else if end < from || end >= text.len() {
            None
        } else {
            uid_line(text, end + 1)
        }
    }
}

/// The first place at or after `from` whose blankness is not `blank`, or the
/// end.
pub open spec fn run_end(line: Seq<u8>, from: int, blank: bool) -> int
    decreases line.len() - from,
{
    if from < 0 || from >= line.len() || is_blank(line[from]) != blank {
        from
    } else {
        run_end(line, from + 1, blank)
    }
}

/// The second of the fields that blanks separate; empty where there is none.
pub open spec fn second_field(line: Seq<u8>) -> Seq<u8> {
    let first = run_end(line, 0, true);
    let after_first = run_end(line, first, false);
    let second = run_end(line, after_first, true);
    line.subrange(second, run_end(line, second, false))
}

/// The digits of a number, which may be marked as positive.
pub open spec fn unsigned_digits(field: Seq<u8>) -> Seq<u8> {
    if field.len() != 0 && field[0] == 43 {
        field.subrange(1, field.len() as int)
    } else {
        field
    }
}

/// The number that the second field stands for, if it is one of 32 bits.
pub open spec fn effective_user_in(line: Seq<u8>) -> Option<u32> {
    let digits = unsigned_digits(second_field(line));
    if digits.len() != 0 && all_digits(digits) && decimal_value(digits) <= u32::MAX {
        Some(decimal_value(digits) as u32)
    } else {
        None
    }
}

proof fn lemma_run_end(line: Seq<u8>, from: int, blank: bool)
    requires
        0 <= from <= line.len(),
    ensures
        from <= run_end(line, from, blank) <= line.len(),
    decreases line.len() - from,
{
    if from < line.len() && is_blank(line[from]) == blank {
        lemma_run_end(line, from + 1, blank);
    }
}

proof fn lemma_line_end(text: Seq<u8>, from: int)
    requires
        0 <= from <= text.len(),
    ensures
        from <= line_end(text, from) <= text.len(),
    decreases text.len() - from,
{
    if from < text.len() && text[from] != 10 {
        lemma_line_end(text, from + 1);
    }
}

fn find_run_end(line: &[u8], from: usize, blank: bool) -> (r: usize)
    requires
        from <= line@.len(),
    ensures
        r == run_end(line@, from as int, blank),
        from <= r <= line@.len(),
{
    let mut i: usize = from;
    while i < line.len()
        invariant
            from <= i <= line@.len(),
            run_end(line@, from as int, blank) == run_end(line@, i as int, blank),
        decreases line@.len() - i,
    {
        let byte = line[i];
        let is = byte == 32 || byte == 9 || byte == 10 || byte == 12 || byte == 13;
        if is != blank {
            return i;
        }
        i += 1;
    }
    i
}

fn find_line_end(text: &[u8], from: usize) -> (r: usize)
    requires
        from <= text@.len(),
    ensures
        r == line_end(text@, from as int),
        from <= r <= text@.len(),
{
    let mut i: usize = from;
    while i < text.len()
        invariant
            from <= i <= text@.len(),
            line_end(text@, from as int) == line_end(text@, i as int),
        decreases text@.len() - i,
    {
        if text[i] == 10 {
            return i;
        }
        i += 1;
    }
    i
}

fn parse_field(line: &[u8]) -> (r: Option<u32>)
    ensures
        r == effective_user_in(line@),
{
    let first: usize = find_run_end(line, 0, true);
    let after_first: usize = find_run_end(line, first, false);
    let second: usize = find_run_end(line, after_first, true);
    let end: usize = find_run_end(line, second, false);
    let field = vstd::slice::slice_subrange(line, second, end);
    let digits = if field.len() != 0 && field[0] == 43 {
        tail(field, 1)
    } else {
        field
    };
    if digits.len() == 0 || !is_all_digits(digits) {
        return None;
    }
    parse_u32(digits)
}

/// The effective user that a process status text names: the second number on
/// the line `Uid:`.
pub fn parse_effective_uid(status: &[u8]) -> (r: Option<u32>)
    ensures
        r == match uid_line(status@, 0) {
            Some(line) => effective_user_in(line),
            None => None,
        },
{
    let prefix: [u8; 4] = [85, 105, 100, 58];
    assert(prefix@ =~= uid_prefix());
    let mut from: usize = 0;
    while from < status.len()
        invariant
            from <= status@.len(),
            prefix@ == uid_prefix(),
            uid_line(status@, 0) == uid_line(status@, from as int),
        decreases status@.len() - from,
    {
        let end: usize = find_line_end(status, from);
        let line = vstd::slice::slice_subrange(status, from, end);
        if begins_with(line, prefix.as_slice()) {
            return parse_field(tail(line, 4));
        }
        if end == status.len() {
            return None;
        }
        from = end + 1;
    }
    None
}

} // verus!
