//! Joining the words of a line to a command: argument letters and numbers
//! become arguments, a command word and the arguments behind it become a
//! command.

use vstd::prelude::*;
use vstd::string::StringSliceAdditionalSpecFns;
use vstd::std_specs::cmp::PartialEqSpecImpl;
use crate::ast::{CommandArgument, CommandId, GcodeCommand, MajorMinorNumber, ArgumentMnumonic};
use arrayvec::ArrayVec;
use crate::bounded::{
    arguments_new, arguments_push, items_drain, items_new, items_push, items_set, items_slice,
    parse_items,
};
use crate::lexer::{lex_words, words_from, ParseItem, ParseTypeId};

verus! {

/// The number of joining rules.
pub const RULE_COUNT: usize = 6;

/// The most words a line may hold.
pub const MAX_WORDS: usize = 30;

/// What is said of a line that holds more than `MAX_WORDS` words.
pub const TOO_MANY_WORDS: &'static str = "more words than a line may hold";

/// The most joins that are made on one line.
pub const MAX_ROUNDS: usize = 90;

/// The result of parsing: a word, an argument or a command.
#[derive(Debug)]
pub enum ParseUnion {
    /// Nothing was read.
    Nothing,
    SignedNumber(MajorMinorNumber),
    GCodeCommandId(CommandId),
    ArgId(ArgumentMnumonic),
    Arg(CommandArgument),
    GCodeCommand(GcodeCommand),
    NL,
}

/// The kinds of items that rule `rule` joins, in their order. The rules
/// are tried from the first to the last.
pub open spec fn rule_pattern(rule: int) -> Seq<ParseTypeId> {
    if rule == 0 {
        seq![ParseTypeId::ArgId, ParseTypeId::Number]
    } else if rule == 1 {
        seq![ParseTypeId::CommandId, ParseTypeId::Arg, ParseTypeId::Arg, ParseTypeId::Arg]
    } else if rule == 2 {
        seq![ParseTypeId::CommandId, ParseTypeId::Arg, ParseTypeId::Arg]
    } else if rule == 3 {
        seq![ParseTypeId::CommandId, ParseTypeId::Arg]
    } else if rule == 4 {
        seq![ParseTypeId::CommandId]
    } else {
        seq![ParseTypeId::ParsedCommand, ParseTypeId::NL]
    }
}

/// The items of `state` from `i` on are of the kinds that rule `rule`
/// joins.
pub open spec fn rule_matches_at(state: Seq<ParseItem>, rule: int, i: int) -> bool {
    let pattern = rule_pattern(rule);
    &&& 0 <= i
    &&& i + pattern.len() <= state.len()
    &&& forall|j: int| 0 <= j < pattern.len() ==> (#[trigger] state[i + j]).kind() == pattern[j]
}

/// The first index from `from` on at which rule `rule` matches, or `-1`.
pub open spec fn first_match(state: Seq<ParseItem>, rule: int, from: int) -> int
    decreases state.len() - from,
{
    if from < 0 || from + rule_pattern(rule).len() > state.len() {
        -1
    } else if rule_matches_at(state, rule, from) {
        from
    } else {
        first_match(state, rule, from + 1)
    }
}

/// The argument that an item holds, if it is an argument.
pub open spec fn arg_of(item: ParseItem) -> Option<CommandArgument> {
    match item {
        ParseItem::Arg(a) => Some(a),
        _ => None,
    }
}

/// The item that rule `rule` makes of the items of `state` from `i` on.
pub open spec fn joined(state: Seq<ParseItem>, rule: int, i: int) -> ParseItem {
    if rule == 0 {
        match (state[i], state[i + 1]) {
            (ParseItem::ArgId(mnumonic), ParseItem::SignedNumber(value)) => ParseItem::Arg(
                CommandArgument { mnumonic, value },
            ),
            _ => ParseItem::Nothing,
        }
    } else if 1 <= rule <= 4 {
        match state[i] {
            ParseItem::GCodeCommandId(command_id) => ParseItem::GCodeCommand {
                command_id,
                first: if rule <= 3 {
                    arg_of(state[i + 1])
                } else {
                    None
                },
                second: if rule <= 2 {
                    arg_of(state[i + 2])
                } else {
                    None
                },
                third: if rule <= 1 {
                    arg_of(state[i + 3])
                } else {
                    None
                },
            },
            _ => ParseItem::Nothing,
        }
    } else {
        state[i]
    }
}

/// `state` after rule `rule` has joined the items from `i` on to one.
pub open spec fn reduced_at(state: Seq<ParseItem>, rule: int, i: int) -> Seq<ParseItem> {
    state.subrange(0, i).push(joined(state, rule, i)) + state.subrange(
        i + rule_pattern(rule).len(),
        state.len() as int,
    )
}

/// `state` after one join: the first rule from `rule` on that matches
/// anywhere joins at the first place where it matches. `None` where no
/// rule matches.
pub open spec fn reduce_once(state: Seq<ParseItem>, rule: int) -> Option<Seq<ParseItem>>
    decreases RULE_COUNT - rule,
{
    if rule < 0 || rule >= RULE_COUNT {
        None
    } else if first_match(state, rule, 0) >= 0 {
        Some(reduced_at(state, rule, first_match(state, rule, 0)))
    } else {
        reduce_once(state, rule + 1)
    }
}

/// `state` after joins have been made until no rule matches, `rounds`
/// times at most.
pub open spec fn reduce(state: Seq<ParseItem>, rounds: nat) -> Seq<ParseItem>
    decreases rounds,
{
    if rounds == 0 {
        state
    } else {
        match reduce_once(state, 0) {
            Some(next) => reduce(next, (rounds - 1) as nat),
            None => state,
        }
    }
}

/// The index of the first command in `state` from `from` on, or `-1`.
pub open spec fn first_command(state: Seq<ParseItem>, from: int) -> int
    decreases state.len() - from,
{
    if from < 0 || from >= state.len() {
        -1
    } else if state[from].kind() == ParseTypeId::ParsedCommand {
        from
    } else {
        first_command(state, from + 1)
    }
}

/// What a line stands for once its words are joined: its first command;
/// without a command, its first item; without any item, nothing.
pub open spec fn pick(state: Seq<ParseItem>) -> ParseItem {
    if first_command(state, 0) >= 0 {
        state[first_command(state, 0)]
    } else if state.len() > 0 {
        state[0]
    } else {
        ParseItem::Nothing
    }
}

/// What the line `source` stands for, or `None` if it holds more than
/// `MAX_WORDS` words.
pub open spec fn parsed(source: Seq<u8>) -> Option<ParseItem> {
    let words = words_from(source, 0);
    if words.len() > MAX_WORDS {
        None
    } else {
        Some(pick(reduce(words, MAX_ROUNDS as nat)))
    }
}

impl ParseItem {
    /// The arguments of a command, in their order; empty for other items.
    pub open spec fn args(self) -> Seq<CommandArgument> {
        match self {
            ParseItem::GCodeCommand { first: Some(a), second: Some(b), third: Some(c), .. } => seq![
                a,
                b,
                c,
            ],
            ParseItem::GCodeCommand { first: Some(a), second: Some(b), third: None, .. } => seq![
                a,
                b,
            ],
            ParseItem::GCodeCommand { first: Some(a), second: None, .. } => seq![a],
            _ => Seq::empty(),
        }
    }
}

impl Default for ParseUnion {
    fn default() -> (r: Self)
        ensures
            r == ParseUnion::Nothing,
    {
        ParseUnion::Nothing
    }
}

impl Clone for ParseUnion {
    fn clone(&self) -> (r: Self)
        ensures
            r.same_as(*self),
    {
        match self {
            ParseUnion::Nothing => ParseUnion::Nothing,
            ParseUnion::SignedNumber(n) => ParseUnion::SignedNumber(*n),
            ParseUnion::GCodeCommandId(id) => ParseUnion::GCodeCommandId(*id),
            ParseUnion::ArgId(letter) => ParseUnion::ArgId(*letter),
            ParseUnion::Arg(a) => ParseUnion::Arg(*a),
            ParseUnion::GCodeCommand(c) => ParseUnion::GCodeCommand(c.clone()),
            ParseUnion::NL => ParseUnion::NL,
        }
    }
}

impl PartialEq for ParseUnion {
    /// Two results are equal if they are of one kind and hold equal values.
    fn eq(&self, other: &Self) -> (r: bool) {
        match (self, other) {
            (ParseUnion::Nothing, ParseUnion::Nothing) => true,
            (ParseUnion::SignedNumber(a), ParseUnion::SignedNumber(b)) => *a == *b,
            (ParseUnion::GCodeCommandId(a), ParseUnion::GCodeCommandId(b)) => *a == *b,
            (ParseUnion::ArgId(a), ParseUnion::ArgId(b)) => *a == *b,
            (ParseUnion::Arg(a), ParseUnion::Arg(b)) => *a == *b,
            (ParseUnion::GCodeCommand(a), ParseUnion::GCodeCommand(b)) => *a == *b,
            (ParseUnion::NL, ParseUnion::NL) => true,
            _ => false,
        }
    }
}

impl PartialEqSpecImpl for ParseUnion {
    open spec fn obeys_eq_spec() -> bool {
        true
    }

    open spec fn eq_spec(&self, other: &Self) -> bool {
        self.same_as(*other)
    }
}

impl ParseUnion {
    /// The two results are of one kind and hold equal values.
    pub open spec fn same_as(self, other: ParseUnion) -> bool {
        match (self, other) {
            (ParseUnion::Nothing, ParseUnion::Nothing) => true,
            (ParseUnion::SignedNumber(a), ParseUnion::SignedNumber(b)) => a == b,
            (ParseUnion::GCodeCommandId(a), ParseUnion::GCodeCommandId(b)) => a == b,
            (ParseUnion::ArgId(a), ParseUnion::ArgId(b)) => a == b,
            (ParseUnion::Arg(a), ParseUnion::Arg(b)) => a == b,
            (ParseUnion::GCodeCommand(a), ParseUnion::GCodeCommand(b)) => a.command_id
                == b.command_id && a.args() == b.args(),
            (ParseUnion::NL, ParseUnion::NL) => true,
            _ => false,
        }
    }

    /// The result says what `item` says.
    pub open spec fn stands_for(self, item: ParseItem) -> bool {
        match self {
            ParseUnion::Nothing => item == ParseItem::Nothing,
            ParseUnion::SignedNumber(n) => item == ParseItem::SignedNumber(n),
            ParseUnion::GCodeCommandId(id) => item == ParseItem::GCodeCommandId(id),
            ParseUnion::ArgId(letter) => item == ParseItem::ArgId(letter),
            ParseUnion::Arg(a) => item == ParseItem::Arg(a),
            ParseUnion::GCodeCommand(c) => match item {
                ParseItem::GCodeCommand { command_id, .. } => c.command_id == command_id
                    && c.args() == item.args(),
                _ => false,
            },
            ParseUnion::NL => item == ParseItem::NL,
        }
    }

    /// Builds the result that says what `item` says.
    pub fn from_item(item: ParseItem) -> (r: ParseUnion)
        ensures
            r.stands_for(item),
    {
        match item {
            ParseItem::Nothing => ParseUnion::Nothing,
            ParseItem::SignedNumber(n) => ParseUnion::SignedNumber(n),
            ParseItem::GCodeCommandId(id) => ParseUnion::GCodeCommandId(id),
            ParseItem::ArgId(letter) => ParseUnion::ArgId(letter),
            ParseItem::Arg(a) => ParseUnion::Arg(a),
            ParseItem::NL => ParseUnion::NL,
            ParseItem::GCodeCommand { command_id, first, second, third } => {
                let mut arguments = arguments_new();
                if let Some(a) = first {
                    arguments_push(&mut arguments, a);
                    if let Some(b) = second {
                        arguments_push(&mut arguments, b);
                        if let Some(c) = third {
                            arguments_push(&mut arguments, c);
                        }
                    }
                }
                let command = GcodeCommand { command_id, arguments };
                assert(command.args() =~= item.args());
                ParseUnion::GCodeCommand(command)
            },
        }
    }
}

/// The kinds of items that rule `rule` joins.
fn pattern_of(rule: usize) -> (r: Vec<ParseTypeId>)
    requires
        rule < RULE_COUNT,
    ensures
        r@ == rule_pattern(rule as int),
        1 <= r@.len() <= 4,
{
    let r = if rule == 0 {
        vec![ParseTypeId::ArgId, ParseTypeId::Number]
    } else if rule == 1 {
        vec![ParseTypeId::CommandId, ParseTypeId::Arg, ParseTypeId::Arg, ParseTypeId::Arg]
    } else if rule == 2 {
        vec![ParseTypeId::CommandId, ParseTypeId::Arg, ParseTypeId::Arg]
    } else if rule == 3 {
        vec![ParseTypeId::CommandId, ParseTypeId::Arg]
    } else if rule == 4 {
        vec![ParseTypeId::CommandId]
    } else {
        vec![ParseTypeId::ParsedCommand, ParseTypeId::NL]
    };
    assert(r@ =~= rule_pattern(rule as int));
    r
}

/// The first index at which rule `rule` matches.
fn find_match(state: &[ParseItem], rule: usize) -> (r: Option<usize>)
    requires
        rule < RULE_COUNT,
    ensures
        match r {
            Some(i) => first_match(state@, rule as int, 0) == i && rule_matches_at(
                state@,
                rule as int,
                i as int,
            ),
            None => first_match(state@, rule as int, 0) == -1,
        },
{
    let pattern = pattern_of(rule);
    let width: usize = pattern.len();
    let mut from: usize = 0;
    let total: usize = state.len();
    while from <= total && width <= total - from
        invariant
            total == state@.len(),
            width == pattern@.len(),
            1 <= width <= 4,
            pattern@ == rule_pattern(rule as int),
            first_match(state@, rule as int, 0) == first_match(state@, rule as int, from as int),
            from <= state@.len(),
        decreases state@.len() - from,
    {
        let mut j: usize = 0;
        let mut same: bool = true;
        while same && j < width
            invariant
                j <= width,
                width == pattern@.len(),
                from + width <= state@.len(),
                total == state@.len(),
                pattern@ == rule_pattern(rule as int),
                same ==> forall|k: int| 0 <= k < j ==>
                    (#[trigger] state@[from + k]).kind() == pattern@[k],
                !same ==> !rule_matches_at(state@, rule as int, from as int),
            decreases width - j + (if same { 1int } else { 0int }),
        {
            if state[from + j].type_id() != pattern[j] {
                same = false;
            } else {
                j += 1;
            }
        }
        if same {
            return Some(from);
        }
        from += 1;
    }
    None
}

/// The item that rule `rule` makes of the items from `i` on.
fn join(state: &[ParseItem], rule: usize, i: usize) -> (r: ParseItem)
    requires
        rule < RULE_COUNT,
        rule_matches_at(state@, rule as int, i as int),
    ensures
        r == joined(state@, rule as int, i as int),
{
    let total: usize = state.len();
    proof {
        let pattern = rule_pattern(rule as int);
        assert(forall|j: int| 0 <= j < pattern.len() ==> (#[trigger] state@[i + j]).kind() == pattern[j]);
        assert(state@[i + 0].kind() == pattern[0]);
    }
    if rule == 0 {
        match (state[i], state[i + 1]) {
            (ParseItem::ArgId(mnumonic), ParseItem::SignedNumber(value)) => ParseItem::Arg(
                CommandArgument { mnumonic, value },
            ),
            _ => ParseItem::Nothing,
        }
    } else if rule <= 4 {
        match state[i] {
            ParseItem::GCodeCommandId(command_id) => {
                let first = if rule <= 3 {
                    item_arg(&state[i + 1])
                } else {
                    None
                };
                let second = if rule <= 2 {
                    item_arg(&state[i + 2])
                } else {
                    None
                };
                let third = if rule <= 1 {
                    item_arg(&state[i + 3])
                } else {
                    None
                };
                ParseItem::GCodeCommand { command_id, first, second, third }
            },
            _ => ParseItem::Nothing,
        }
    } else {
        state[i]
    }
}

/// The argument that an item holds, if it is an argument.
fn item_arg(item: &ParseItem) -> (r: Option<CommandArgument>)
    ensures
        r == arg_of(*item),
{
    match item {
        ParseItem::Arg(a) => Some(*a),
        _ => None,
    }
}

/// Makes one join, if a rule matches.
fn reduce_step(state: &mut ArrayVec<ParseItem, 30>) -> (joined: bool)
    ensures
        joined ==> reduce_once(parse_items(*old(state)), 0) == Some(parse_items(*final(state))),
        !joined ==> reduce_once(parse_items(*old(state)), 0) is None && parse_items(*final(state))
            == parse_items(*old(state)),
{
    let ghost before = parse_items(*state);
    let mut rule: usize = 0;
    while rule < RULE_COUNT
        invariant
            rule <= RULE_COUNT,
            parse_items(*state) == before,
            before == parse_items(*old(state)),
            reduce_once(before, 0) == reduce_once(before, rule as int),
        decreases RULE_COUNT - rule,
    {
        let held: &[ParseItem] = items_slice(state);
        if let Some(at) = find_match(held, rule) {
            let width: usize = pattern_of(rule).len();
            let total: usize = held.len();
            let item = join(held, rule, at);
            items_drain(state, at + 1, at + width);
            items_set(state, at, item);
            proof {
                assert(parse_items(*state) =~= reduced_at(before, rule as int, at as int));
            }
            return true;
        }
        rule += 1;
    }
    false
}

/// What the joined items stand for.
fn pick_result(state: &[ParseItem]) -> (r: ParseItem)
    ensures
        r == pick(state@),
{
    let mut from: usize = 0;
    while from < state.len()
        invariant
            from <= state@.len(),
            first_command(state@, 0) == first_command(state@, from as int),
        decreases state@.len() - from,
    {
        if state[from].type_id() == ParseTypeId::ParsedCommand {
            return state[from];
        }
        from += 1;
    }
    if state.len() > 0 {
        state[0]
    } else {
        ParseItem::Nothing
    }
}

/// Parses one line given as bytes; see `parse`.
pub fn parse_bytes(source: &[u8]) -> (r: Result<ParseUnion, &'static str>)
    ensures
        r is Err <==> parsed(source@) is None,
        r is Err ==> r->Err_0 == TOO_MANY_WORDS,
        r is Ok ==> r->Ok_0.stands_for(parsed(source@)->0),
{
    let words = lex_words(source);
    if words.len() > MAX_WORDS {
        return Err(TOO_MANY_WORDS);
    }
    let mut state: ArrayVec<ParseItem, 30> = items_new();
    let mut k: usize = 0;
    while k < words.len()
        invariant
            k <= words@.len() <= MAX_WORDS,
            parse_items(state) == words@.take(k as int),
        decreases words@.len() - k,
    {
        items_push(&mut state, words[k]);
        proof {
            assert(words@.take(k + 1) =~= words@.take(k as int).push(words@[k as int]));
        }
        k += 1;
    }
    proof {
        assert(words@.take(k as int) =~= words@);
    }
    let mut rounds: usize = 0;
    let mut done: bool = false;
    while !done && rounds < MAX_ROUNDS
        invariant
            rounds <= MAX_ROUNDS,
            done ==> reduce_once(parse_items(state), 0) is None,
            reduce(words_from(source@, 0), MAX_ROUNDS as nat) == reduce(
                parse_items(state),
                (MAX_ROUNDS - rounds) as nat,
            ),
        decreases MAX_ROUNDS - rounds + (if done { 0int } else { 1int }),
    {
        if reduce_step(&mut state) {
            rounds += 1;
        } else {
            done = true;
        }
    }
    assert(reduce(words_from(source@, 0), MAX_ROUNDS as nat) == parse_items(state));
    Ok(ParseUnion::from_item(pick_result(items_slice(&state))))
}

/// Parses one line: reads its words, joins them by the rules and returns
/// the first command of the line; without a command, the first item that
/// is left; for an empty line, nothing. A line of more than `MAX_WORDS`
/// words is refused.
pub fn parse(source: &str) -> (r: Result<ParseUnion, &'static str>)
    ensures
        r is Err <==> parsed(source.spec_bytes()) is None,
        r is Err ==> r->Err_0 == TOO_MANY_WORDS,
        r is Ok ==> r->Ok_0.stands_for(parsed(source.spec_bytes())->0),
{
    parse_bytes(source.as_bytes())
}

} // verus!
