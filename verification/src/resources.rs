//! The phone's resources as the admin dashboard shows them: memory read from
//! `/proc/meminfo`, battery charge, and the figures used when those cannot be read.

use vstd::prelude::*;
use crate::numbers::{parse_integer, parse_integer_chars, parse_u64};
use crate::text::{chars_of, has_prefix, is_white_space, is_whitespace, starts_with, string_of, trim, trim_bounds};

verus! {

/// Total memory, in kB, assumed until `/proc/meminfo` says otherwise (8 GB).
pub const DEFAULT_MEM_TOTAL_KB: u64 = 8388608;

/// Available memory, in kB, assumed until `/proc/meminfo` says otherwise (4 GB).
pub const DEFAULT_MEM_AVAILABLE_KB: u64 = 4194304;

/// Battery charge, in percent, shown when the battery's capacity cannot be read as a number.
pub const DEFAULT_BATTERY_CHARGE: u8 = 88;

/// Total storage, in GB.
pub const STORAGE_TOTAL_GB: u64 = 256;

/// Used storage, in GB.
pub const STORAGE_USED_GB: u64 = 124;

/// The first position at or after `i` that holds no whitespace (or the end).
pub open spec fn skip_ws(s: Seq<char>, i: int) -> int
    decreases s.len() - i,
{
    if 0 <= i < s.len() && is_white_space(s[i]) {
        skip_ws(s, i + 1)
    } else {
        i
    }
}

/// The first position at or after `i` that holds whitespace (or the end).
pub open spec fn skip_word(s: Seq<char>, i: int) -> int
    decreases s.len() - i,
{
    if 0 <= i < s.len() && !is_white_space(s[i]) {
        skip_word(s, i + 1)
    } else {
        i
    }
}

/// The second whitespace-separated word of `s`, as `split_whitespace().nth(1)` gives it.
pub open spec fn second_word(s: Seq<char>) -> Option<Seq<char>> {
    let a = skip_ws(s, 0);
    let b = skip_word(s, a);
    let c = skip_ws(s, b);
    let d = skip_word(s, c);
    if c < s.len() {
        Some(s.subrange(c, d))
    } else {
        None
    }
}

/// The position of the first line feed at or after `from` (or the end).
pub open spec fn next_newline(s: Seq<char>, from: int) -> int
    decreases s.len() - from,
{
    if 0 <= from < s.len() && s[from] != '\n' {
        next_newline(s, from + 1)
    } else {
        from
    }
}

/// The end of the line that starts at `from` and runs to `newline`: a carriage return
/// before the line feed is not part of it, as `str::lines` has it.
pub open spec fn line_end(s: Seq<char>, from: int, newline: int) -> int {
    if newline < s.len() && newline > from && s[newline - 1] == '\r' {
        newline - 1
    } else {
        newline
    }
}

/// A number given on a `/proc/meminfo` line: its second word read as a `u64`.
pub open spec fn line_number(line: Seq<char>) -> Option<int> {
    match second_word(line) {
        Some(w) => parse_integer(w, 0, u64::MAX as int),
        None => None,
    }
}

/// The memory figures (total, available) after one line of `/proc/meminfo`.
pub open spec fn meminfo_line(line: Seq<char>, total: u64, available: u64) -> (u64, u64) {
    if starts_with(line, "MemTotal:"@) {
        match line_number(line) {
            Some(v) => (v as u64, available),
            None => (total, available),
        }
    } else if starts_with(line, "MemAvailable:"@) {
        match line_number(line) {
            Some(v) => (total, v as u64),
            None => (total, available),
        }
    } else {
        (total, available)
    }
}

/// The memory figures (total, available) after the lines of `s` from position `from`
/// on, read in order.
pub open spec fn meminfo_from(s: Seq<char>, from: int, total: u64, available: u64) -> (u64, u64)
    decreases s.len() + 1 - from,
{
    if from < 0 || from >= s.len() {
        (total, available)
    } else {
        let e = next_newline(s, from);
        proof {
            lemma_next_newline_bounds(s, from);
        }
        let figures = meminfo_line(s.subrange(from, line_end(s, from, e)), total, available);
        meminfo_from(s, e + 1, figures.0, figures.1)
    }
}

/// A line that starts inside the text ends inside it.
pub proof fn lemma_next_newline_bounds(s: Seq<char>, from: int)
    requires
        0 <= from <= s.len(),
    ensures
        from <= next_newline(s, from) <= s.len(),
    decreases s.len() - from,
{
    if from < s.len() && s[from] != '\n' {
        lemma_next_newline_bounds(s, from + 1);
    }
}

fn skip_spaces(s: &Vec<char>, i: usize) -> (r: usize)
    requires
        i <= s.len(),
    ensures
        r == skip_ws(s@, i as int),
        i <= r <= s.len(),
{
    let mut j = i;
    while j < s.len() && is_whitespace(s[j])
        invariant
            i <= j <= s.len(),
            skip_ws(s@, j as int) == skip_ws(s@, i as int),
        decreases s.len() - j,
    {
        j += 1;
    }
    j
}

fn skip_non_spaces(s: &Vec<char>, i: usize) -> (r: usize)
    requires
        i <= s.len(),
    ensures
        r == skip_word(s@, i as int),
        i <= r <= s.len(),
{
    let mut j = i;
    while j < s.len() && !is_whitespace(s[j])
        invariant
            i <= j <= s.len(),
            skip_word(s@, j as int) == skip_word(s@, i as int),
        decreases s.len() - j,
    {
        j += 1;
    }
    j
}

/// The second whitespace-separated word of `s`.
pub fn second_word_of(s: &str) -> (r: Option<String>)
    ensures
        opt_chars(r) == second_word(s@),
{
    let v = chars_of(s);
    let a = skip_spaces(&v, 0);
    let b = skip_non_spaces(&v, a);
    let c = skip_spaces(&v, b);
    let d = skip_non_spaces(&v, c);
    if c < v.len() {
        Some(string_of(&v, c, d))
    } else {
        None
    }
}

/// The view of an optional text.
pub open spec fn opt_chars(o: Option<String>) -> Option<Seq<char>> {
    match o {
        Some(s) => Some(s@),
        None => None,
    }
}

fn line_value(line: &str) -> (r: Option<u64>)
    ensures
        match r {
            Some(v) => line_number(line@) == Some(v as int),
            None => line_number(line@) is None,
        },
{
    match second_word_of(line) {
        Some(w) => parse_u64(&chars_of(w.as_str())),
        None => None,
    }
}

/// The memory figures (total, available) after one line of `/proc/meminfo`: a
/// `MemTotal:` or `MemAvailable:` line whose second word is a number replaces that figure.
pub fn read_meminfo_line(line: &str, total: u64, available: u64) -> (r: (u64, u64))
    ensures
        r == meminfo_line(line@, total, available),
{
    if has_prefix(line, "MemTotal:") {
        match line_value(line) {
            Some(v) => (v, available),
            None => (total, available),
        }
    } else if has_prefix(line, "MemAvailable:") {
        match line_value(line) {
            Some(v) => (total, v),
            None => (total, available),
        }
    } else {
        (total, available)
    }
}

fn newline_at_or_after(s: &Vec<char>, from: usize) -> (r: usize)
    requires
        from <= s.len(),
    ensures
        r == next_newline(s@, from as int),
        from <= r <= s.len(),
{
    let mut j = from;
    while j < s.len() && s[j] != '\n'
        invariant
            from <= j <= s.len(),
            next_newline(s@, j as int) == next_newline(s@, from as int),
        decreases s.len() - j,
    {
        j += 1;
    }
    j
}

/// The memory figures (total kB, available kB) that the text of `/proc/meminfo` gives:
/// the last `MemTotal:` and `MemAvailable:` lines with a number win, and a figure no
/// line gives keeps its default.
pub fn read_meminfo(text: &str) -> (r: (u64, u64))
    ensures
        r == meminfo_from(text@, 0, DEFAULT_MEM_TOTAL_KB, DEFAULT_MEM_AVAILABLE_KB),
{
    let s = chars_of(text);
    let mut total = DEFAULT_MEM_TOTAL_KB;
    let mut available = DEFAULT_MEM_AVAILABLE_KB;
    let mut pos: usize = 0;
    while pos < s.len()
        invariant
            pos <= s.len(),
            s@ == text@,
            meminfo_from(s@, pos as int, total, available) == meminfo_from(
                s@,
                0,
                DEFAULT_MEM_TOTAL_KB,
                DEFAULT_MEM_AVAILABLE_KB,
            ),
        decreases s.len() - pos,
    {
        let e = newline_at_or_after(&s, pos);
        let end = if e < s.len() && e > pos && s[e - 1] == '\r' {
            e - 1
        } else {
            e
        };
        let line = string_of(&s, pos, end);
        let figures = read_meminfo_line(line.as_str(), total, available);
        assert(end == line_end(s@, pos as int, e as int));
        assert(meminfo_from(s@, pos as int, total, available) == meminfo_from(s@, e + 1, figures.0, figures.1));
        total = figures.0;
        available = figures.1;
        pos = if e < s.len() {
            e + 1
        } else {
            e
        };
    }
    (total, available)
}

/// Used and total memory in MB from the figures of `/proc/meminfo` in kB: used is total
/// less available, never below zero.
pub fn ram_usage_mb(total_kb: u64, available_kb: u64) -> (r: (u64, u64))
    ensures
        r.0 == (if total_kb >= available_kb { (total_kb - available_kb) as u64 } else { 0u64 }) / 1024,
        r.1 == total_kb / 1024,
{
    let used = total_kb.saturating_sub(available_kb);
    (used / 1024, total_kb / 1024)
}

/// The battery charge that the text of the battery's capacity file gives: the trimmed
/// text read as a `u8`, or the default charge when it is not one.
pub fn battery_charge(capacity: &str) -> (r: u8)
    ensures
        r == match parse_integer(trim(capacity@), 0, 255) {
            Some(v) => v as u8,
            None => DEFAULT_BATTERY_CHARGE,
        },
{
    let v = chars_of(capacity);
    let (a, b) = trim_bounds(&v);
    let trimmed = chars_of(string_of(&v, a, b).as_str());
    match parse_integer_chars(&trimmed, 0, 255) {
        Some(n) => n as u8,
        None => DEFAULT_BATTERY_CHARGE,
    }
}

/// The battery charge shown where the battery cannot be read: 98 at the start of each
/// hour, one less every three minutes.
pub fn simulated_battery(unix_seconds: u64) -> (r: u8)
    ensures
        r == 98 - ((unix_seconds / 60) % 60) / 3,
{
    let minute = (unix_seconds / 60) % 60;
    (98 - minute / 3) as u8
}

} // verus!
