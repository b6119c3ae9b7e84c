//! Reading process listings: process ids, one per line, and socket tables.
//!
//! A listing is cut into lines at its line feeds. Within a line, a word or a
//! number is a range `[lo, hi)` of the line's characters.

use vstd::prelude::*;

verus! {

/// White space as Unicode defines it.
pub open spec fn is_blank(c: char) -> bool {
    let u = c as u32;
    ||| 0x09 <= u <= 0x0D
    ||| u == 0x20
    ||| u == 0x85
    ||| u == 0xA0
    ||| u == 0x1680
    ||| 0x2000 <= u <= 0x200A
    ||| u == 0x2028
    ||| u == 0x2029
    ||| u == 0x202F
    ||| u == 0x205F
    ||| u == 0x3000
}

/// A decimal digit of ASCII.
pub open spec fn is_digit(c: char) -> bool {
    0x30 <= c as u32 <= 0x39
}

/// The value of a decimal digit.
pub open spec fn digit_value(c: char) -> nat {
    (c as u32 - 0x30) as nat
}

/// First position in `[lo, hi)` that holds no white space; `hi` if all do.
pub open spec fn skip_blank(text: Seq<char>, lo: int, hi: int) -> int
    decreases hi - lo,
{
    if lo >= hi || !is_blank(text[lo]) {
        lo
    } else {
        skip_blank(text, lo + 1, hi)
    }
}

/// Position after the last character in `[lo, hi)` that is no white space;
/// `lo` if all are.
pub open spec fn drop_blank(text: Seq<char>, lo: int, hi: int) -> int
    decreases hi - lo,
{
    if hi <= lo || !is_blank(text[hi - 1]) {
        hi
    } else {
        drop_blank(text, lo, hi - 1)
    }
}

/// Whether `[lo, hi)` holds decimal digits only.
pub open spec fn all_digits(text: Seq<char>, lo: int, hi: int) -> bool {
    forall|k: int| lo <= k < hi ==> is_digit(#[trigger] text[k])
}

/// The number that the digits in `[lo, hi)` write in base ten.
pub open spec fn decimal_value(text: Seq<char>, lo: int, hi: int) -> nat
    decreases hi - lo,
{
    if hi <= lo {
        0
    } else {
        decimal_value(text, lo, hi - 1) * 10 + digit_value(text[hi - 1])
    }
}

/// The number written in `[lo, hi)`: an optional plus sign, then at least
/// one digit and nothing else, with a value that fits 32 bits. Leading zeros
/// are fine; a minus sign, a blank inside or an empty range is not.
pub open spec fn number_in(text: Seq<char>, lo: int, hi: int) -> Option<u32> {
    let from = if lo < hi && text[lo] == '+' {
        lo + 1
    } else {
        lo
    };
    if from < hi && all_digits(text, from, hi) && decimal_value(text, from, hi) <= u32::MAX {
        Some(decimal_value(text, from, hi) as u32)
    } else {
        None
    }
}

/// The process id on the line `[lo, hi)`: the number left when white space
/// is taken off both ends.
pub open spec fn pid_in(text: Seq<char>, lo: int, hi: int) -> Option<u32> {
    let from = skip_blank(text, lo, hi);
    number_in(text, from, drop_blank(text, from, hi))
}

/// The process id that a line holds.
pub open spec fn pid_of(line: Seq<char>) -> Option<u32> {
    pid_in(line, 0, line.len() as int)
}

/// Length of the first line of a text: the characters before its first line
/// feed, or all of them.
pub open spec fn line_len(text: Seq<char>) -> nat
    decreases text.len(),
{
    if text.len() == 0 || text[0] == '\n' {
        0
    } else {
        1 + line_len(text.drop_first())
    }
}

/// The lines of a text. A line ends at a line feed or at the end of the
/// text; after a final line feed there is no further line. A carriage
/// return before the line feed stays with its line, as white space.
pub open spec fn lines(text: Seq<char>) -> Seq<Seq<char>>
    decreases text.len(),
{
    if text.len() == 0 {
        Seq::empty()
    } else {
        let n = line_len(text) as int;
        if n < text.len() {
            seq![text.take(n)] + lines(text.skip(n + 1))
        } else {
            seq![text]
        }
    }
}

/// The process ids that lines hold, in the order of the lines. Lines that
/// hold none are passed over.
pub open spec fn pids_of(lines: Seq<Seq<char>>) -> Seq<u32>
    decreases lines.len(),
{
    if lines.len() == 0 {
        Seq::empty()
    } else {
        match pid_of(lines.last()) {
            Some(pid) => pids_of(lines.drop_last()).push(pid),
            None => pids_of(lines.drop_last()),
        }
    }
}

/// The process ids that a listing names, in the order of its lines.
pub open spec fn pid_lines(text: Seq<char>) -> Seq<u32> {
    pids_of(lines(text))
}

/// A line of a text: its characters, and where in the text it starts.
pub struct Line {
    pub start: usize,
    pub chars: Vec<char>,
}

/// What a list of lines says. Where each line starts is left out here;
/// `split_lines` states it apart.
pub open spec fn line_texts(lines: Seq<Line>) -> Seq<Seq<char>> {
    lines.map_values(|l: Line| l.chars@)
}

/// The first line of a text ends where its first line feed stands, or
/// where the text ends.
pub proof fn lemma_line_len(text: Seq<char>, k: int)
    requires
        0 <= k <= text.len(),
        forall|m: int| 0 <= m < k ==> text[m] != '\n',
        k == text.len() || text[k] == '\n',
    ensures
        line_len(text) == k,
    decreases k,
{
    if k > 0 {
        lemma_line_len(text.drop_first(), k - 1);
    }
}

/// Tells white space from the rest.
pub fn is_whitespace(c: char) -> (blank: bool)
    ensures
        blank == is_blank(c),
{
    let u: u32 = c as u32;
    (0x09 <= u && u <= 0x0D) || u == 0x20 || u == 0x85 || u == 0xA0 || u == 0x1680 || (0x2000 <= u
        && u <= 0x200A) || u == 0x2028 || u == 0x2029 || u == 0x202F || u == 0x205F || u == 0x3000
}

/// The characters of a text, one by one.
pub fn characters(text: &str) -> (chars: Vec<char>)
    ensures
        chars@ == text@,
{
    let mut chars: Vec<char> = Vec::new();
    for c in it: text.chars()
        invariant
            it.seq() == text@,
            chars@ == it.seq().take(it.index() as int),
    {
        chars.push(c);
    }
    chars
}

/// Reads the process id in `[lo, hi)` of `chars`.
pub fn pid_between(chars: &Vec<char>, lo: usize, hi: usize) -> (pid: Option<u32>)
    requires
        lo <= hi <= chars@.len(),
    ensures
        pid == pid_in(chars@, lo as int, hi as int),
{
    let ghost text = chars@;
    let mut from: usize = lo;
    while from < hi && is_whitespace(chars[from])
        invariant
            lo <= from <= hi <= chars@.len(),
            text == chars@,
            skip_blank(text, lo as int, hi as int) == skip_blank(text, from as int, hi as int),
        decreases hi - from,
    {
        from += 1;
    }
    let mut to: usize = hi;
    while from < to && is_whitespace(chars[to - 1])
        invariant
            from <= to <= hi <= chars@.len(),
            text == chars@,
            drop_blank(text, from as int, hi as int) == drop_blank(text, from as int, to as int),
        decreases to - from,
    {
        to -= 1;
    }
    if from < to && chars[from] == '+' {
        from += 1;
    }
    if from >= to {
        return None;
    }
    let first: usize = from;
    let mut value: u64 = 0;
    let mut k: usize = first;
    while k < to
        invariant
            first <= k <= to <= chars@.len(),
            text == chars@,
            all_digits(text, first as int, k as int),
            pid_in(text, lo as int, hi as int) == if all_digits(text, first as int, to as int)
                && decimal_value(text, first as int, to as int) <= u32::MAX {
                Some(decimal_value(text, first as int, to as int) as u32)
            } else {
                None
            },
            value <= 0x1_0000_0000,
            value == if decimal_value(text, first as int, k as int) >= 0x1_0000_0000 {
                0x1_0000_0000
            } else {
                decimal_value(text, first as int, k as int)
            },
        decreases to - k,
    {
        let u: u32 = chars[k] as u32;
        if u < 0x30 || u > 0x39 {
            return None;
        }
        let next: u64 = value * 10 + (u - 0x30) as u64;
        value = if next > 0x1_0000_0000 {
            0x1_0000_0000
        } else {
            next
        };
        k += 1;
    }
    if value > 0xFFFF_FFFF {
        None
    } else {
        Some(value as u32)
    }
}

/// Reads the process id that a single line holds.
pub fn parse_pid(line: &str) -> (pid: Option<u32>)
    ensures
        pid == pid_of(line@),
{
    let chars = characters(line);
    pid_between(&chars, 0, chars.len())
}

/// Cuts a text into its lines.
pub fn split_lines(text: &str) -> (cut: Vec<Line>)
    ensures
        line_texts(cut@) == lines(text@),
        text@.len() <= usize::MAX,
        forall|i: int|
            0 <= i < cut@.len() ==> (#[trigger] cut@[i]).start + cut@[i].chars@.len()
                <= text@.len() && text@.subrange(
                cut@[i].start as int,
                cut@[i].start + cut@[i].chars@.len(),
            ) == cut@[i].chars@,
{
    let chars = characters(text);
    let ghost whole = chars@;
    let n: usize = chars.len();
    let mut cut: Vec<Line> = Vec::new();
    let mut line: Vec<char> = Vec::new();
    let mut start: usize = 0;
    let mut pos: usize = 0;
    assert(whole.skip(0) =~= whole);
    while pos < n
        invariant
            start <= pos <= n,
            n == chars@.len(),
            whole == chars@,
            whole == text@,
            line@ == whole.subrange(start as int, pos as int),
            forall|m: int| start <= m < pos ==> whole[m] != '\n',
            lines(whole) == line_texts(cut@) + lines(whole.skip(start as int)),
            forall|i: int|
                0 <= i < cut@.len() ==> (#[trigger] cut@[i]).start + cut@[i].chars@.len()
                    <= whole.len() && whole.subrange(
                    cut@[i].start as int,
                    cut@[i].start + cut@[i].chars@.len(),
                ) == cut@[i].chars@,
        decreases n - pos,
    {
        let c = chars[pos];
        if c == '\n' {
            let ghost rest = whole.skip(start as int);
            proof {
                lemma_line_len(rest, pos - start);
                assert(rest.take(pos - start) =~= line@);
                assert(rest.skip(pos - start + 1) =~= whole.skip(pos + 1));
            }
            cut.push(Line { start, chars: line });
            line = Vec::new();
            start = pos + 1;
        } else {
            line.push(c);
        }
        pos += 1;
    }
    if start < n {
        let ghost rest = whole.skip(start as int);
        proof {
            lemma_line_len(rest, n - start);
        }
        cut.push(Line { start, chars: line });
    }
    cut
}

/// Reads the process ids off a listing that names one per line.
pub fn parse_pid_lines(listing: &str) -> (pids: Vec<u32>)
    ensures
        pids@ == pid_lines(listing@),
{
    let cut = split_lines(listing);
    let ghost all = line_texts(cut@);
    let mut pids: Vec<u32> = Vec::new();
    let mut i: usize = 0;
    while i < cut.len()
        invariant
            i <= cut@.len(),
            all == line_texts(cut@),
            pids@ == pids_of(all.take(i as int)),
        decreases cut@.len() - i,
    {
        let line = &cut[i].chars;
        assert(all.take(i + 1).drop_last() =~= all.take(i as int));
        match pid_between(line, 0, line.len()) {
            Some(pid) => {
                pids.push(pid);
            },
            None => {},
        }
        i += 1;
    }
    assert(all.take(i as int) =~= all);
    pids
}

/// Whether `pattern` stands in `text` at position `at`.
pub open spec fn stands_at(text: Seq<char>, at: int, pattern: Seq<char>) -> bool {
    0 <= at && at + pattern.len() <= text.len() && text.subrange(at, at + pattern.len())
        == pattern
}

/// Whether `pattern` stands somewhere inside `[lo, hi)`.
pub open spec fn holds(text: Seq<char>, lo: int, hi: int, pattern: Seq<char>) -> bool {
    exists|at: int| lo <= at && at + pattern.len() <= hi && #[trigger] stands_at(text, at, pattern)
}

/// Whether `pattern` stands at `at` and ends a word there: what follows it
/// is white space, or `hi`, the end of the line.
pub open spec fn ends_word_at(text: Seq<char>, at: int, hi: int, pattern: Seq<char>) -> bool {
    &&& stands_at(text, at, pattern)
    &&& at + pattern.len() <= hi
    &&& (at + pattern.len() == hi || is_blank(text[at + pattern.len()]))
}

/// Whether some word inside `[lo, hi)` ends in `pattern`.
pub open spec fn ends_word(text: Seq<char>, lo: int, hi: int, pattern: Seq<char>) -> bool {
    exists|at: int| lo <= at && #[trigger] ends_word_at(text, at, hi, pattern)
}

/// Start of the word that ends at `hi`, looking back no further than `lo`.
pub open spec fn word_start(text: Seq<char>, lo: int, hi: int) -> int
    decreases hi - lo,
{
    if hi <= lo || is_blank(text[hi - 1]) {
        hi
    } else {
        word_start(text, lo, hi - 1)
    }
}

/// The last word in `[lo, hi)`, where words are what white space separates.
pub open spec fn last_word(text: Seq<char>, lo: int, hi: int) -> Option<Seq<char>> {
    let to = drop_blank(text, lo, hi);
    if lo < to {
        Some(text.subrange(word_start(text, lo, to), to))
    } else {
        None
    }
}

/// The owner named on the socket table's line `[lo, hi)`: its last word, if
/// the line holds an address on the backend's port and speaks of a listening
/// socket. The port has to end the address: a longer number that only
/// starts with the port's digits is another port.
pub open spec fn owner_in(text: Seq<char>, lo: int, hi: int) -> Option<Seq<char>> {
    if ends_word(text, lo, hi, ":9876"@) && holds(text, lo, hi, "LISTENING"@) {
        last_word(text, lo, hi)
    } else {
        None
    }
}

/// The owner that a line of a socket table names.
pub open spec fn owner_of(line: Seq<char>) -> Option<Seq<char>> {
    owner_in(line, 0, line.len() as int)
}

/// The owners that lines name, in the order of the lines.
pub open spec fn owners_of(lines: Seq<Seq<char>>) -> Seq<Seq<char>>
    decreases lines.len(),
{
    if lines.len() == 0 {
        Seq::empty()
    } else {
        match owner_of(lines.last()) {
            Some(owner) => owners_of(lines.drop_last()).push(owner),
            None => owners_of(lines.drop_last()),
        }
    }
}

/// The owners of the sockets that listen on the backend's port, in the
/// order of the table's lines and as the table writes them.
pub open spec fn socket_owners(text: Seq<char>) -> Seq<Seq<char>> {
    owners_of(lines(text))
}

/// What a list of strings says.
pub open spec fn texts(strings: Seq<String>) -> Seq<Seq<char>> {
    strings.map_values(|s: String| s@)
}

/// Looks for `pattern` inside `[lo, hi)` of `chars`.
pub fn range_holds(chars: &Vec<char>, lo: usize, hi: usize, pattern: &Vec<char>) -> (found: bool)
    requires
        lo <= hi <= chars@.len(),
    ensures
        found == holds(chars@, lo as int, hi as int, pattern@),
{
    let ghost text = chars@;
    let width: usize = pattern.len();
    if width == 0 {
        assert(text.subrange(lo as int, lo as int) =~= pattern@);
        assert(stands_at(text, lo as int, pattern@));
        return true;
    }
    let mut at: usize = lo;
    while width <= hi - at
        invariant
            lo <= at <= hi <= chars@.len(),
            text == chars@,
            0 < width == pattern@.len(),
            forall|a: int| lo <= a < at ==> !#[trigger] stands_at(text, a, pattern@),
        decreases hi - at,
    {
        let mut k: usize = 0;
        while k < width && chars[at + k] == pattern[k]
            invariant
                k <= width,
                width <= hi - at,
                hi <= chars@.len(),
                text == chars@,
                width == pattern@.len(),
                forall|m: int| 0 <= m < k ==> text[at + m] == pattern@[m],
            decreases width - k,
        {
            k += 1;
        }
        if k == width {
            assert(text.subrange(at as int, at + width) =~= pattern@);
            assert(stands_at(text, at as int, pattern@));
            return true;
        }
        at += 1;
    }
    false
}

/// A line on which the backend's port nowhere ends a word names no owner,
/// whatever else it says: the owner of a socket on a port that only starts
/// with the same digits is left alone.
pub proof fn lemma_other_ports_are_left_alone(line: Seq<char>)
    requires
        forall|at: int| #[trigger]
            stands_at(line, at, ":9876"@) ==> at + 5 < line.len() && !is_blank(line[at + 5]),
    ensures
        owner_of(line) is None,
{
    reveal_strlit(":9876");
}

/// Looks inside `[lo, hi)` of `chars` for a word that ends in `pattern`.
pub fn range_ends_word(chars: &Vec<char>, lo: usize, hi: usize, pattern: &Vec<char>) -> (found:
    bool)
    requires
        lo <= hi <= chars@.len(),
    ensures
        found == ends_word(chars@, lo as int, hi as int, pattern@),
{
    let ghost text = chars@;
    let width: usize = pattern.len();
    if width == 0 {
        assert(text.subrange(hi as int, hi as int) =~= pattern@);
        assert(ends_word_at(text, hi as int, hi as int, pattern@));
        return true;
    }
    let mut at: usize = lo;
    while width <= hi - at
        invariant
            lo <= at <= hi <= chars@.len(),
            text == chars@,
            0 < width == pattern@.len(),
            forall|a: int| lo <= a < at ==> !#[trigger] ends_word_at(text, a, hi as int, pattern@),
        decreases hi - at,
    {
        let mut k: usize = 0;
        while k < width && chars[at + k] == pattern[k]
            invariant
                k <= width,
                width <= hi - at,
                hi <= chars@.len(),
                text == chars@,
                width == pattern@.len(),
                forall|m: int| 0 <= m < k ==> text[at + m] == pattern@[m],
            decreases width - k,
        {
            k += 1;
        }
        if k == width {
            if at + width == hi || is_whitespace(chars[at + width]) {
                assert(text.subrange(at as int, at + width) =~= pattern@);
                assert(ends_word_at(text, at as int, hi as int, pattern@));
                return true;
            }
        } else {
            assert(text.subrange(at as int, at + width)[k as int] != pattern@[k as int]);
        }
        at += 1;
    }
    false
}

/// Reads the owner off a line of the socket table `table`.
fn owner_on(table: &str, line: &Line) -> (owner: Option<String>)
    requires
        line.start + line.chars@.len() <= table@.len() <= usize::MAX,
        table@.subrange(line.start as int, line.start + line.chars@.len()) == line.chars@,
    ensures
        match owner {
            Some(word) => owner_of(line.chars@) == Some(word@),
            None => owner_of(line.chars@) is None,
        },
{
    let chars = &line.chars;
    let ghost text = chars@;
    let hi: usize = chars.len();
    let port = characters(":9876");
    let state = characters("LISTENING");
    if !range_ends_word(chars, 0, hi, &port) || !range_holds(chars, 0, hi, &state) {
        return None;
    }
    let mut to: usize = hi;
    while 0 < to && is_whitespace(chars[to - 1])
        invariant
            to <= hi == chars@.len(),
            text == chars@,
            drop_blank(text, 0, hi as int) == drop_blank(text, 0, to as int),
        decreases to,
    {
        to -= 1;
    }
    if to == 0 {
        return None;
    }
    let mut from: usize = to;
    while 0 < from && !is_whitespace(chars[from - 1])
        invariant
            from <= to <= chars@.len(),
            text == chars@,
            word_start(text, 0, to as int) == word_start(text, 0, from as int),
        decreases from,
    {
        from -= 1;
    }
    let word = table.substring_char(line.start + from, line.start + to);
    Some(word.to_string())
}

/// Reads off a socket table the owners of the sockets that listen on the
/// backend's port.
pub fn listening_owners(table: &str) -> (owners: Vec<String>)
    ensures
        texts(owners@) == socket_owners(table@),
{
    let cut = split_lines(table);
    let ghost all = line_texts(cut@);
    let mut owners: Vec<String> = Vec::new();
    let mut i: usize = 0;
    while i < cut.len()
        invariant
            i <= cut@.len(),
            all == line_texts(cut@),
            texts(owners@) == owners_of(all.take(i as int)),
            table@.len() <= usize::MAX,
            forall|k: int|
                0 <= k < cut@.len() ==> (#[trigger] cut@[k]).start + cut@[k].chars@.len()
                    <= table@.len() && table@.subrange(
                    cut@[k].start as int,
                    cut@[k].start + cut@[k].chars@.len(),
                ) == cut@[k].chars@,
        decreases cut@.len() - i,
    {
        assert(all.take(i + 1).drop_last() =~= all.take(i as int));
        match owner_on(table, &cut[i]) {
            Some(word) => {
                owners.push(word);
            },
            None => {},
        }
        i += 1;
    }
    assert(all.take(i as int) =~= all);
    owners
}

} // verus!
