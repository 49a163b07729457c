//! The words of a command line: blanks, line breaks, comments, argument
//! letters, command words and numbers, read from bytes.

use vstd::prelude::*;
use crate::ast::{ArgumentMnumonic, CommandArgument, CommandId, CommandMnumonics, MajorMinorNumber};

verus! {

/// The kind of a word or of a group of words.
#[derive(Clone, Copy, PartialEq, Eq, Structural, Debug)]
pub enum ParseTypeId {
    NoOp,
    Error,
    Number,
    CommandId,
    ArgId,
    Arg,
    ParsedCommand,
    NL,
}

impl Default for ParseTypeId {
    fn default() -> (r: Self)
        ensures
            r == ParseTypeId::NoOp,
    {
        ParseTypeId::NoOp
    }
}

/// A word of a line, or a group that words have been joined to. A command
/// holds its word and up to three arguments in the order they were written.
#[derive(Clone, Copy, PartialEq, Eq, Structural, Debug)]
pub enum ParseItem {
    /// A blank or a comment: nothing to parse.
    Nothing,
    SignedNumber(MajorMinorNumber),
    GCodeCommandId(CommandId),
    ArgId(ArgumentMnumonic),
    Arg(CommandArgument),
    GCodeCommand {
        command_id: CommandId,
        first: Option<CommandArgument>,
        second: Option<CommandArgument>,
        third: Option<CommandArgument>,
    },
    NL,
}

/// A word and the number of bytes it was read from.
#[derive(Clone, Copy, Debug)]
pub struct LexResult<T> {
    pub poped_chars: usize,
    pub result: T,
}

impl ParseItem {
    /// The kind of the item.
    pub open spec fn kind(self) -> ParseTypeId {
        match self {
            ParseItem::Nothing => ParseTypeId::NoOp,
            ParseItem::SignedNumber(_) => ParseTypeId::Number,
            ParseItem::GCodeCommandId(_) => ParseTypeId::CommandId,
            ParseItem::Arg(_) => ParseTypeId::Arg,
            ParseItem::ArgId(_) => ParseTypeId::ArgId,
            ParseItem::GCodeCommand { .. } => ParseTypeId::ParsedCommand,
            ParseItem::NL => ParseTypeId::NL,
        }
    }

    /// The kind of the item.
    pub fn type_id(&self) -> (r: ParseTypeId)
        ensures
            r == self.kind(),
    {
        match self {
            ParseItem::Nothing => ParseTypeId::NoOp,
            ParseItem::SignedNumber(_) => ParseTypeId::Number,
            ParseItem::GCodeCommandId(_) => ParseTypeId::CommandId,
            ParseItem::Arg(_) => ParseTypeId::Arg,
            ParseItem::ArgId(_) => ParseTypeId::ArgId,
            ParseItem::GCodeCommand { .. } => ParseTypeId::ParsedCommand,
            ParseItem::NL => ParseTypeId::NL,
        }
    }
}

pub open spec fn is_digit(b: u8) -> bool {
    0x30 <= b <= 0x39
}

pub open spec fn is_line_break(b: u8) -> bool {
    b == 0x0a || b == 0x0d
}

/// The number of bytes from `at` on that all equal `byte`.
pub open spec fn byte_run(s: Seq<u8>, at: int, byte: u8) -> int
    decreases s.len() - at,
{
    if 0 <= at < s.len() && s[at] == byte {
        1 + byte_run(s, at + 1, byte)
    } else {
        0
    }
}

/// The number of bytes from `at` on that are all digits.
pub open spec fn digit_run(s: Seq<u8>, at: int) -> int
    decreases s.len() - at,
{
    if 0 <= at < s.len() && is_digit(s[at]) {
        1 + digit_run(s, at + 1)
    } else {
        0
    }
}

/// The number that the `len` digits from `at` on spell.
pub open spec fn digits_value(s: Seq<u8>, at: int, len: int) -> int
    decreases len,
{
    if len <= 0 {
        0
    } else {
        digits_value(s, at, len - 1) * 10 + (s[at + len - 1] - 0x30)
    }
}

/// `v` if it is at most `max`, else zero: a number too large for its field
/// reads as zero.
pub open spec fn or_zero(v: int, max: int) -> int {
    if v <= max {
        v
    } else {
        0
    }
}

/// Ten to the power `n`.
pub open spec fn pow10(n: nat) -> nat
    decreases n,
{
    if n == 0 {
        1
    } else {
        10 * pow10((n - 1) as nat)
    }
}

/// The index of the last line break in the first `upto` bytes of `s`, or
/// `-1` if there is none.
pub open spec fn last_break(s: Seq<u8>, upto: int) -> int
    decreases upto,
{
    if upto <= 0 || upto > s.len() {
        -1
    } else if is_line_break(s[upto - 1]) {
        upto - 1
    } else {
        last_break(s, upto - 1)
    }
}

/// A comment at `at`: a semicolon and all that follows it up to the last
/// line break of the text. The result is its length. Without a line break
/// behind it a semicolon starts no comment.
pub open spec fn comment_at(s: Seq<u8>, at: int) -> Option<int> {
    if 0 <= at < s.len() && s[at] == 0x3b && last_break(s, s.len() as int) > at {
        Some(last_break(s, s.len() as int) - at)
    } else {
        None
    }
}

/// A command word at `at`: one of the letters `G`, `M`, `N`, a blank or
/// none, digits, and a point with one digit or none. A number above 65535
/// reads as zero. The length does not count the blank.
pub open spec fn command_at(s: Seq<u8>, at: int) -> Option<(CommandId, int)> {
    if 0 <= at < s.len() && CommandMnumonics::of_byte(s[at]) is Some {
        let digits_at = if at + 1 < s.len() && s[at + 1] == 0x20 {
            at + 2
        } else {
            at + 1
        };
        let n = digit_run(s, digits_at);
        let after = digits_at + n;
        let has_minor = after + 1 < s.len() && s[after] == 0x2e && is_digit(s[after + 1]);
        if n > 0 {
            Some(
                (
                    CommandId {
                        mnumonic: CommandMnumonics::of_byte(s[at])->0,
                        major: or_zero(digits_value(s, digits_at, n), 0xFFFF) as u16,
                        minor: if has_minor {
                            (s[after + 1] - 0x30) as u16
                        } else {
                            0
                        },
                    },
                    1 + n + if has_minor {
                        2int
                    } else {
                        0int
                    },
                ),
            )
        } else {
            None
        }
    } else {
        None
    }
}

/// The value of a number in millionths: the whole part with its sign, plus
/// the fraction `minor / 10^places`, rounded down.
pub open spec fn micros_of(major: int, minor: int, places: nat) -> int {
    major * 1_000_000 + (minor * 1_000_000) / (pow10(places) as int)
}

/// A number at `at`: minus signs or none, digits, and a point with digits
/// or none. A single minus sign makes the whole part negative. A whole part
/// above `i32::MAX` and a fraction whose digits spell more than 65535 read
/// as zero.
pub open spec fn number_at(s: Seq<u8>, at: int) -> Option<(MajorMinorNumber, int)> {
    let dashes = byte_run(s, at, 0x2d);
    let digits_at = at + dashes;
    let n = digit_run(s, digits_at);
    let after = digits_at + n;
    let places = if 0 <= after < s.len() && s[after] == 0x2e {
        digit_run(s, after + 1)
    } else {
        0
    };
    let whole = or_zero(digits_value(s, digits_at, n), i32::MAX as int);
    let major = if dashes == 1 {
        -whole
    } else {
        whole
    };
    let minor = or_zero(digits_value(s, after + 1, places), 0xFFFF);
    if 0 <= at && n > 0 {
        Some(
            (
                MajorMinorNumber {
                    major: major as i32,
                    minor: minor as u16,
                    micros: micros_of(major, minor, places as nat) as i64,
                },
                dashes + n + if places > 0 {
                    1 + places
                } else {
                    0
                },
            ),
        )
    } else {
        None
    }
}

/// The word at `at` and its length. The kinds of words are tried in this
/// order: blank, line feed, carriage return, comment, argument letter,
/// command word, number. `None` where no word starts.
pub open spec fn word_at(s: Seq<u8>, at: int) -> Option<(ParseItem, int)> {
    if !(0 <= at < s.len()) {
        None
    } else if s[at] == 0x20 {
        Some((ParseItem::Nothing, 1))
    } else if is_line_break(s[at]) {
        Some((ParseItem::NL, 1))
    } else if comment_at(s, at) is Some {
        Some((ParseItem::Nothing, comment_at(s, at)->0))
    } else if ArgumentMnumonic::of_byte(s[at]) is Some {
        Some((ParseItem::ArgId(ArgumentMnumonic::of_byte(s[at])->0), 1))
    } else {
        match command_at(s, at) {
            Some((id, n)) => Some((ParseItem::GCodeCommandId(id), n)),
            None => match number_at(s, at) {
                Some((number, n)) => Some((ParseItem::SignedNumber(number), n)),
                None => None,
            },
        }
    }
}

/// The words of `s` from `at` on, blanks and comments left out. Reading
/// ends at the first byte at which no word starts.
pub open spec fn words_from(s: Seq<u8>, at: int) -> Seq<ParseItem>
    decreases s.len() - at,
{
    match word_at(s, at) {
        Some((item, n)) => if n <= 0 || at + n > s.len() {
            Seq::empty()
        } else if item == ParseItem::Nothing {
            words_from(s, at + n)
        } else {
            seq![item] + words_from(s, at + n)
        },
        None => Seq::empty(),
    }
}

/// All words of `s` from `at` on, blanks and comments among them, each
/// with its length.
pub open spec fn lexed_from(s: Seq<u8>, at: int) -> Seq<LexResult<ParseItem>>
    decreases s.len() - at,
{
    match word_at(s, at) {
        Some((item, n)) => if n <= 0 || at + n > s.len() {
            Seq::empty()
        } else {
            seq![LexResult { poped_chars: n as usize, result: item }] + lexed_from(s, at + n)
        },
        None => Seq::empty(),
    }
}

proof fn lemma_digits_value_bounds(s: Seq<u8>, at: int, len: int)
    requires
        0 <= at,
        0 <= len,
        at + len <= s.len(),
        forall|i: int| at <= i < at + len ==> is_digit(s[i]),
    ensures
        0 <= digits_value(s, at, len),
        len > 0 ==> digits_value(s, at, len - 1) <= digits_value(s, at, len),
    decreases len,
{
    if len > 0 {
        lemma_digits_value_bounds(s, at, len - 1);
    }
}

proof fn lemma_pow10_values()
    ensures
        pow10(10) == 10_000_000_000,
        pow10(11) == 100_000_000_000,
{
    reveal_with_fuel(pow10, 13);
}

proof fn lemma_pow10_grows(n: nat)
    ensures
        pow10(n) >= 1,
        n >= 11 ==> pow10(n) >= 100_000_000_000,
    decreases n,
{
    if n > 0 {
        lemma_pow10_grows((n - 1) as nat);
    }
    if n == 11 {
        lemma_pow10_values();
    }
}

/// The number of bytes from `at` on that all equal `byte`.
fn count_bytes(s: &[u8], at: usize, byte: u8) -> (n: usize)
    requires
        at <= s@.len(),
    ensures
        n == byte_run(s@, at as int, byte),
        at + n <= s@.len(),
        at + n <= usize::MAX,
{
    let mut end: usize = at;
    while end < s.len() && s[end] == byte
        invariant
            at <= end <= s@.len(),
            byte_run(s@, at as int, byte) == (end - at) + byte_run(s@, end as int, byte),
        decreases s@.len() - end,
    {
        end += 1;
    }
    end - at
}

/// The number of bytes from `at` on that are all digits.
fn count_digits(s: &[u8], at: usize) -> (n: usize)
    requires
        at <= s@.len(),
    ensures
        n == digit_run(s@, at as int),
        at + n <= s@.len(),
        at + n <= usize::MAX,
        forall|i: int| at <= i < at + n ==> is_digit(s@[i]),
{
    let mut end: usize = at;
    while end < s.len() && 0x30 <= s[end] && s[end] <= 0x39
        invariant
            at <= end <= s@.len(),
            digit_run(s@, at as int) == (end - at) + digit_run(s@, end as int),
            forall|i: int| at <= i < end ==> is_digit(s@[i]),
        decreases s@.len() - end,
    {
        end += 1;
    }
    end - at
}

/// The number that the `len` digits from `at` on spell, or zero if it is
/// above `max`.
fn read_digits(s: &[u8], at: usize, len: usize, max: u64) -> (v: u64)
    requires
        at + len <= s@.len(),
        at + len <= usize::MAX,
        forall|i: int| at <= i < at + len ==> is_digit(s@[i]),
        max <= 0xFFFF_FFFF,
    ensures
        v == or_zero(digits_value(s@, at as int, len as int), max as int),
        v <= max,
{
    let mut acc: u64 = 0;
    let mut over: bool = false;
    let mut i: usize = 0;
    while i < len
        invariant
            i <= len,
            at + len <= s@.len(),
            at + len <= usize::MAX,
            forall|k: int| at <= k < at + len ==> is_digit(s@[k]),
            max <= 0xFFFF_FFFF,
            !over ==> acc == digits_value(s@, at as int, i as int) && acc <= max,
            over ==> digits_value(s@, at as int, i as int) > max,
        decreases len - i,
    {
        proof {
            lemma_digits_value_bounds(s@, at as int, i + 1);
        }
        if !over {
            assert(is_digit(s@[at + i]));
            let next: u64 = acc * 10 + (s[at + i] - 0x30) as u64;
            if next > max {
                over = true;
            } else {
                acc = next;
            }
        }
        i += 1;
    }
    if over {
        0
    } else {
        acc
    }
}

/// The index of the last line break of `s`, if it has one.
fn find_last_break(s: &[u8]) -> (r: Option<usize>)
    ensures
        match r {
            Some(i) => last_break(s@, s@.len() as int) == i && i < s@.len(),
            None => last_break(s@, s@.len() as int) == -1,
        },
{
    let mut upto: usize = s.len();
    while upto > 0
        invariant
            upto <= s@.len(),
            last_break(s@, s@.len() as int) == last_break(s@, upto as int),
        decreases upto,
    {
        if s[upto - 1] == 0x0a || s[upto - 1] == 0x0d {
            return Some(upto - 1);
        }
        upto -= 1;
    }
    None
}

/// Reads a command word at `at`.
fn lex_command(s: &[u8], at: usize) -> (r: Option<(CommandId, usize)>)
    requires
        at < s@.len(),
    ensures
        match r {
            Some((id, n)) => command_at(s@, at as int) == Some((id, n as int)) && 0 < n && at + n
                <= s@.len(),
            None => command_at(s@, at as int) is None,
        },
{
    let letter: u8 = s[at];
    let mnumonic = if letter == 0x47 {
        CommandMnumonics::G
    } else if letter == 0x4d {
        CommandMnumonics::M
    } else if letter == 0x4e {
        CommandMnumonics::N
    } else {
        return None;
    };
    let digits_at: usize = if at + 1 < s.len() && s[at + 1] == 0x20 {
        at + 2
    } else {
        at + 1
    };
    let n: usize = count_digits(s, digits_at);
    if n == 0 {
        return None;
    }
    let major: u64 = read_digits(s, digits_at, n, 0xFFFF);
    let after: usize = digits_at + n;
    let has_minor: bool = after < s.len() - 1 && s[after] == 0x2e && 0x30 <= s[after + 1] && s[after
        + 1] <= 0x39;
    let minor: u16 = if has_minor {
        (s[after + 1] - 0x30) as u16
    } else {
        0
    };
    let length: usize = if has_minor {
        1 + n + 2
    } else {
        1 + n
    };
    Some((CommandId { mnumonic, major: major as u16, minor }, length))
}

/// Reads a number at `at`.
fn lex_number(s: &[u8], at: usize) -> (r: Option<(MajorMinorNumber, usize)>)
    requires
        at < s@.len(),
    ensures
        match r {
            Some((number, n)) => number_at(s@, at as int) == Some((number, n as int)) && 0 < n
                && at + n <= s@.len(),
            None => number_at(s@, at as int) is None,
        },
{
    let dashes: usize = count_bytes(s, at, 0x2d);
    let digits_at: usize = at + dashes;
    let n: usize = count_digits(s, digits_at);
    if n == 0 {
        return None;
    }
    let after: usize = digits_at + n;
    let places: usize = if after < s.len() && s[after] == 0x2e {
        count_digits(s, after + 1)
    } else {
        0
    };
    let whole: u64 = read_digits(s, digits_at, n, 0x7FFF_FFFF);
    let major: i64 = if dashes == 1 {
        -(whole as i64)
    } else {
        whole as i64
    };
    let minor: u64 = if places > 0 {
        read_digits(s, after + 1, places, 0xFFFF)
    } else {
        0
    };
    let mut power: u64 = 1;
    let mut k: usize = 0;
    while k < places && k < 11
        invariant
            k <= places,
            k <= 11,
            power == pow10(k as nat),
            1 <= power <= 100_000_000_000,
        decreases 11 - k,
    {
        proof {
            lemma_pow10_le((k + 1) as nat, 11);
            lemma_pow10_values();
        }
        power = power * 10;
        k += 1;
    }
    let fraction: u64 = if k < places {
        proof {
            lemma_pow10_grows(places as nat);
        }
        0
    } else {
        (minor * 1_000_000) / power
    };
    proof {
        lemma_pow10_grows(places as nat);
        assert((minor * 1_000_000) / (pow10(places as nat) as int) == fraction) by {
            if k < places {
                assert((minor * 1_000_000) / (pow10(places as nat) as int) == 0)
                    by (nonlinear_arith)
                    requires
                        0 <= minor <= 0xFFFF,
                        pow10(places as nat) >= 100_000_000_000,
                ;
            }
        }
        assert(fraction <= 0xFFFF * 1_000_000) by (nonlinear_arith)
            requires
                fraction == (minor * 1_000_000) / (pow10(places as nat) as int),
                0 <= minor <= 0xFFFF,
                pow10(places as nat) >= 1,
        ;
    }
    let micros: i64 = major * 1_000_000 + fraction as i64;
    let length: usize = if places > 0 {
        dashes + n + 1 + places
    } else {
        dashes + n
    };
    Some((MajorMinorNumber { major: major as i32, minor: minor as u16, micros }, length))
}

proof fn lemma_pow10_le(a: nat, b: nat)
    requires
        a <= b,
    ensures
        pow10(a) <= pow10(b),
    decreases b,
{
    if a < b {
        lemma_pow10_le(a, (b - 1) as nat);
    }
}

/// Reads the word at `at`; `last` is the index of the last line break of
/// `s`.
fn lex_word(s: &[u8], at: usize, last: Option<usize>) -> (r: Option<LexResult<ParseItem>>)
    requires
        at < s@.len(),
        match last {
            Some(i) => last_break(s@, s@.len() as int) == i && i < s@.len(),
            None => last_break(s@, s@.len() as int) == -1,
        },
    ensures
        match r {
            Some(word) => word_at(s@, at as int) == Some((word.result, word.poped_chars as int))
                && 0 < word.poped_chars && at + word.poped_chars <= s@.len(),
            None => word_at(s@, at as int) is None,
        },
{
    let first: u8 = s[at];
    if first == 0x20 {
        return Some(LexResult { poped_chars: 1, result: ParseItem::Nothing });
    }
    if first == 0x0a || first == 0x0d {
        return Some(LexResult { poped_chars: 1, result: ParseItem::NL });
    }
    if first == 0x3b {
        if let Some(i) = last {
            if i > at {
                return Some(LexResult { poped_chars: i - at, result: ParseItem::Nothing });
            }
        }
    }
    let one: [u8; 1] = [first];
    if let Ok(letter) = ArgumentMnumonic::from_bytes(&one) {
        return Some(LexResult { poped_chars: 1, result: ParseItem::ArgId(letter) });
    }
    if let Some((id, n)) = lex_command(s, at) {
        return Some(LexResult { poped_chars: n, result: ParseItem::GCodeCommandId(id) });
    }
    if let Some((number, n)) = lex_number(s, at) {
        return Some(LexResult { poped_chars: n, result: ParseItem::SignedNumber(number) });
    }
    None
}

/// Reads `source` word by word, blanks and comments included, up to the
/// first byte at which no word starts.
pub fn lex(source: &[u8]) -> (words: Vec<LexResult<ParseItem>>)
    ensures
        words@ == lexed_from(source@, 0),
{
    let last = find_last_break(source);
    let mut words: Vec<LexResult<ParseItem>> = Vec::new();
    let mut at: usize = 0;
    while at < source.len()
        invariant
            at <= source@.len(),
            match last {
                Some(i) => last_break(source@, source@.len() as int) == i && i < source@.len(),
                None => last_break(source@, source@.len() as int) == -1,
            },
            lexed_from(source@, 0) == words@ + lexed_from(source@, at as int),
        decreases source@.len() - at,
    {
        match lex_word(source, at, last) {
            Some(word) => {
                proof {
                    assert(words@.push(word) + lexed_from(source@, at + word.poped_chars)
                        =~= words@ + lexed_from(source@, at as int));
                }
                words.push(word);
                at += word.poped_chars;
            },
            None => {
                assert(words@ + lexed_from(source@, at as int) =~= words@);
                return words;
            },
        }
    }
    assert(words@ + lexed_from(source@, at as int) =~= words@);
    words
}

/// Reads the words of `source` that count: blanks and comments are left
/// out.
pub fn lex_words(source: &[u8]) -> (words: Vec<ParseItem>)
    ensures
        words@ == words_from(source@, 0),
{
    let last = find_last_break(source);
    let mut words: Vec<ParseItem> = Vec::new();
    let mut at: usize = 0;
    while at < source.len()
        invariant
            at <= source@.len(),
            match last {
                Some(i) => last_break(source@, source@.len() as int) == i && i < source@.len(),
                None => last_break(source@, source@.len() as int) == -1,
            },
            words_from(source@, 0) == words@ + words_from(source@, at as int),
        decreases source@.len() - at,
    {
        match lex_word(source, at, last) {
            Some(word) => {
                proof {
                    if word.result != ParseItem::Nothing {
                        assert(words@.push(word.result) + words_from(
                            source@,
                            at + word.poped_chars,
                        ) =~= words@ + words_from(source@, at as int));
                    }
                }
                if word.result != ParseItem::Nothing {
                    words.push(word.result);
                }
                at += word.poped_chars;
            },
            None => {
                assert(words@ + words_from(source@, at as int) =~= words@);
                return words;
            },
        }
    }
    assert(words@ + words_from(source@, at as int) =~= words@);
    words
}

} // verus!
