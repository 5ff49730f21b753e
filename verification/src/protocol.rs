//! The control protocol: one line in, one response out.

use crate::clock::TimeOfDay;
use crate::window::{lemma_awake_time_left, Schedule};
use vstd::prelude::*;
use vstd::string::{StrSliceExecFns, StringExecFns};

verus! {

/// What a line on the control channel asks for.
#[derive(Clone, Copy, Debug, PartialEq, Eq, Structural)]
pub enum Command {
    Status,
    Stop,
    Reset,
    Test,
    /// Any line that is none of the four words.
    Invalid,
}

/// The characters that count as white space at either end of a line: the
/// code points with the Unicode property `White_Space`.
pub open spec fn is_space(c: char) -> bool {
    let u = c as u32;
    ||| 0x09 <= u <= 0x0D
    ||| u == 0x20
    ||| u == 0x85
    ||| u == 0xA0
    ||| u == 0x1680
    ||| 0x2000 <= u <= 0x200A
    ||| u == 0x2028
    ||| u == 0x2029
    ||| u == 0x202F
    ||| u == 0x205F
    ||| u == 0x3000
}

/// `s` without the white space it starts with.
pub open spec fn trim_start(s: Seq<char>) -> Seq<char>
    decreases s.len(),
{
    if s.len() > 0 && is_space(s[0]) {
        trim_start(s.drop_first())
    } else {
        s
    }
}

/// `s` without the white space it ends with.
pub open spec fn trim_end(s: Seq<char>) -> Seq<char>
    decreases s.len(),
{
    if s.len() > 0 && is_space(s.last()) {
        trim_end(s.drop_last())
    } else {
        s
    }
}

/// `s` without the white space at either end.
pub open spec fn trimmed(s: Seq<char>) -> Seq<char> {
    trim_end(trim_start(s))
}

/// The command that a word names. The match is exact: case counts.
pub open spec fn command_of(word: Seq<char>) -> Command {
    if word == "status"@ {
        Command::Status
    } else if word == "stop"@ {
        Command::Stop
    } else if word == "reset"@ {
        Command::Reset
    } else if word == "test"@ {
        Command::Test
    } else {
        Command::Invalid
    }
}

/// The decimal digit `d` as a character.
pub open spec fn digit(d: int) -> char
    recommends
        0 <= d < 10,
{
    if d == 0 {
        '0'
    } else if d == 1 {
        '1'
    } else if d == 2 {
        '2'
    } else if d == 3 {
        '3'
    } else if d == 4 {
        '4'
    } else if d == 5 {
        '5'
    } else if d == 6 {
        '6'
    } else if d == 7 {
        '7'
    } else if d == 8 {
        '8'
    } else {
        '9'
    }
}

/// A number below one hundred in two decimal digits, padded with a zero.
pub open spec fn two_digits(v: int) -> Seq<char>
    recommends
        0 <= v < 100,
{
    seq![digit(v / 10), digit(v % 10)]
}

/// A positive span below one hundred hours as `HH:MM:SS.cc`: whole hours,
/// minutes of the hour, seconds of the minute and hundredths of the second,
/// each cut off, none rounded.
pub open spec fn time_left_text(nanos: int) -> Seq<char>
    recommends
        0 <= nanos < 360_000_000_000_000,
{
    two_digits(nanos / 3_600_000_000_000) + seq![':'] + two_digits((nanos / 60_000_000_000) % 60)
        + seq![':'] + two_digits((nanos / 1_000_000_000) % 60) + seq!['.'] + two_digits(
        (nanos / 10_000_000) % 100,
    )
}

/// The answer to `status` at `now`.
pub open spec fn status_text(schedule: Schedule, now: TimeOfDay) -> Seq<char> {
    if schedule.asleep_at(now) {
        "\nStatus: ASLEEP\nTime for bed."@
    } else {
        "\nStatus: AWAKE\nTime Left: "@ + time_left_text(schedule.nanos_until_bed(now)) + "\n"@
    }
}

/// The answer to `stop`.
pub open spec fn stop_text() -> Seq<char> {
    "Ending daemon..."@
}

/// The answer to `reset`.
pub open spec fn reset_text() -> Seq<char> {
    "Reset variables."@
}

/// The answer to `test`: it acknowledges the rehearsal and names its steps.
pub open spec fn test_text() -> Seq<char> {
    "Dry run: set triggered, start playback, notify shutdown."@
}

/// The answer to a line that is no command.
pub open spec fn invalid_text() -> Seq<char> {
    "Error: Invalid command."@
}

pub fn char_is_space(c: char) -> (r: bool)
    ensures
        r == is_space(c),
{
    let u: u32 = c as u32;
    (0x09 <= u && u <= 0x0D) || u == 0x20 || u == 0x85 || u == 0xA0 || u == 0x1680 || (0x2000 <= u
        && u <= 0x200A) || u == 0x2028 || u == 0x2029 || u == 0x202F || u == 0x205F || u == 0x3000
}

fn chars_of(line: &str) -> (v: Vec<char>)
    ensures
        v@ == line@,
{
    let mut v: Vec<char> = Vec::new();
    for c in it: line.chars()
        invariant
            v@.len() == it.index(),
            it.seq() == line@,
            forall|j: int| 0 <= j < v@.len() ==> v@[j] == it.seq()[j],
    {
        v.push(c);
    }
    assert(v@ =~= line@);
    v
}

/// The bounds of `v` without the white space at either end.
fn trim_bounds(v: &Vec<char>) -> (r: (usize, usize))
    ensures
        r.0 <= r.1 <= v@.len(),
        trimmed(v@) == v@.subrange(r.0 as int, r.1 as int),
{
    let n = v.len();
    let mut i: usize = 0;
    assert(v@.subrange(0, n as int) =~= v@);
    while i < n && char_is_space(v[i])
        invariant
            i <= n == v@.len(),
            trim_start(v@) == trim_start(v@.subrange(i as int, n as int)),
        decreases n - i,
    {
        assert(v@.subrange(i as int, n as int).drop_first() =~= v@.subrange(i + 1, n as int));
        i += 1;
    }
    let ghost rest = v@.subrange(i as int, n as int);
    assert(trim_start(v@) == rest);
    let mut j: usize = n;
    while j > i && char_is_space(v[j - 1])
        invariant
            i <= j <= n == v@.len(),
            trim_end(rest) == trim_end(v@.subrange(i as int, j as int)),
            rest == v@.subrange(i as int, n as int),
        decreases j - i,
    {
        assert(v@.subrange(i as int, j as int).drop_last() =~= v@.subrange(i as int, j - 1));
        j -= 1;
    }
    (i, j)
}

/// Whether the characters of `v` from `from` up to `to` spell `word`.
fn spells(v: &Vec<char>, from: usize, to: usize, word: &str) -> (r: bool)
    requires
        from <= to <= v@.len(),
    ensures
        r == (v@.subrange(from as int, to as int) == word@),
{
    let len = word.unicode_len();
    if to - from != len {
        return false;
    }
    let mut k: usize = 0;
    while k < len
        invariant
            k <= len == word@.len(),
            to - from == len,
            from <= to <= v@.len(),
            forall|m: int| 0 <= m < k ==> v@[from + m] == word@[m],
        decreases len - k,
    {
        if v[from + k] != word.get_char(k) {
            assert(v@.subrange(from as int, to as int)[k as int] != word@[k as int]);
            return false;
        }
        k += 1;
    }
    assert(v@.subrange(from as int, to as int) =~= word@);
    true
}

/// Reads one line of the control channel: the white space at both ends is
/// dropped, and what is left must be one of the four words.
pub fn parse_command(line: &str) -> (c: Command)
    ensures
        c == command_of(trimmed(line@)),
{
    let v = chars_of(line);
    let (from, to) = trim_bounds(&v);
    if spells(&v, from, to, "status") {
        Command::Status
    } else if spells(&v, from, to, "stop") {
        Command::Stop
    } else if spells(&v, from, to, "reset") {
        Command::Reset
    } else if spells(&v, from, to, "test") {
        Command::Test
    } else {
        Command::Invalid
    }
}

/// The line that a client sends for `word`: the word and a line feed.
pub fn request_line(word: &str) -> (r: String)
    ensures
        r@ == word@ + "\n"@,
{
    let mut r = String::from_str(word);
    r.append("\n");
    r
}

fn digit_str(d: u8) -> (r: &'static str)
    requires
        d < 10,
    ensures
        r@ == seq![digit(d as int)],
{
    proof {
        reveal_strlit("0");
        reveal_strlit("1");
        reveal_strlit("2");
        reveal_strlit("3");
        reveal_strlit("4");
        reveal_strlit("5");
        reveal_strlit("6");
        reveal_strlit("7");
        reveal_strlit("8");
        reveal_strlit("9");
    }
    let r = match d {
        0 => "0",
        1 => "1",
        2 => "2",
        3 => "3",
        4 => "4",
        5 => "5",
        6 => "6",
        7 => "7",
        8 => "8",
        _ => "9",
    };
    assert(r@ =~= seq![digit(d as int)]);
    r
}

fn push_two_digits(out: &mut String, v: u8)
    requires
        v < 100,
    ensures
        final(out)@ == old(out)@ + two_digits(v as int),
{
    out.append(digit_str(v / 10));
    out.append(digit_str(v % 10));
    assert(final(out)@ =~= old(out)@ + two_digits(v as int));
}

/// The answer to `status` at `now`: asleep, or awake with the time left
/// until bed time.
pub fn status_response(schedule: &Schedule, now: &TimeOfDay) -> (r: String)
    ensures
        r@ == status_text(*schedule, *now),
{
    if schedule.is_asleep(now) {
        String::from_str("\nStatus: ASLEEP\nTime for bed.")
    } else {
        let left = schedule.time_until_bed(now);
        proof {
            use_type_invariant(now);
            use_type_invariant(&schedule.bed);
            use_type_invariant(&schedule.wake);
            lemma_awake_time_left(*schedule, *now);
        }
        let ghost n = left.nanos();
        let hours = left.num_hours();
        let minutes = left.num_minutes() % 60;
        let seconds = left.num_seconds() % 60;
        let centis = (left.num_milliseconds() % 1000) / 10;
        assert(hours == n / 3_600_000_000_000);
        assert(minutes == (n / 60_000_000_000) % 60);
        assert(seconds == (n / 1_000_000_000) % 60);
        assert(centis == (n / 10_000_000) % 100);
        proof {
            reveal_strlit(":");
            reveal_strlit(".");
        }
        let mut out = String::from_str("\nStatus: AWAKE\nTime Left: ");
        push_two_digits(&mut out, hours as u8);
        out.append(":");
        push_two_digits(&mut out, minutes as u8);
        out.append(":");
        push_two_digits(&mut out, seconds as u8);
        out.append(".");
        push_two_digits(&mut out, centis as u8);
        out.append("\n");
        assert(":"@ =~= seq![':']);
        assert("."@ =~= seq!['.']);
        assert(out@ =~= status_text(*schedule, *now));
        out
    }
}

/// The answer to `status` by the local wall clock.
pub fn current_status(schedule: &Schedule) -> (r: String)
    ensures
        exists|now: TimeOfDay| now.wf() && r@ == status_text(*schedule, now),
{
    let now = TimeOfDay::now_local();
    status_response(schedule, &now)
}

/// The four words come back from the line that a client sends for them:
/// `request_line` adds a line feed, and `parse_command` drops it again.
pub proof fn lemma_request_round_trip()
    ensures
        command_of(trimmed("status"@ + "\n"@)) == Command::Status,
        command_of(trimmed("stop"@ + "\n"@)) == Command::Stop,
        command_of(trimmed("reset"@ + "\n"@)) == Command::Reset,
        command_of(trimmed("test"@ + "\n"@)) == Command::Test,
{
    reveal_strlit("status");
    reveal_strlit("stop");
    reveal_strlit("reset");
    reveal_strlit("test");
    reveal_strlit("\n");
    assert("\n"@ =~= seq!['\n']);
    lemma_word_with_line_feed("status"@);
    lemma_word_with_line_feed("stop"@);
    lemma_word_with_line_feed("reset"@);
    lemma_word_with_line_feed("test"@);
    assert("stop"@.len() != "status"@.len());
    assert("reset"@.len() != "status"@.len() && "reset"@.len() != "stop"@.len());
    assert("test"@.len() != "status"@.len() && "test"@[0] != "stop"@[0] && "test"@.len()
        != "reset"@.len());
}

/// A word that neither starts nor ends with white space is what is left of
/// the word followed by a line feed.
pub proof fn lemma_word_with_line_feed(word: Seq<char>)
    requires
        word.len() > 0,
        !is_space(word[0]),
        !is_space(word.last()),
    ensures
        trimmed(word + seq!['\n']) == word,
{
    let line = word + seq!['\n'];
    assert(line[0] == word[0]);
    assert(trim_start(line) == line);
    assert(line.last() == '\n');
    assert(line.drop_last() =~= word);
    assert(trim_end(word) == word);
}

} // verus!
