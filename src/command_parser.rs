//! Parser and validators of the agent command language:
//!
//! ```text
//! INDEX KNOWLEDGE
//! PATH="D:\PROJECTS\TRIZ_LOGS"
//! MODE="local"
//! ```
//!
//! The first line names the command, case-insensitively; every other
//! non-empty line is `KEY="VALUE"`. A later line with a key already seen
//! replaces its value.

use vstd::prelude::*;
use vstd::string::*;
use crate::text::{
    concat2, decimal, find_char, first_index_of, newline_pieces, push_decimal, same_text,
    split_newlines, trim, trim_str, views,
};

verus! {

/// The commands of the language.
#[derive(PartialEq, Eq, Structural, Clone, Copy, Debug)]
pub enum CommandKind {
    IndexKnowledge,
    TrainAgent,
    GitPush,
}

/// Position of the first key equal to `k`.
pub open spec fn first_pos(keys: Seq<Seq<char>>, k: Seq<char>) -> Option<int> {
    if exists|i: int| 0 <= i < keys.len() && keys[i] == k && forall|j: int| 0 <= j < i ==> keys[j] != k {
        Some(
            choose|i: int|
                0 <= i < keys.len() && keys[i] == k && forall|j: int| 0 <= j < i ==> keys[j] != k,
        )
    } else {
        None
    }
}

proof fn lemma_first_below(keys: Seq<Seq<char>>, k: Seq<char>, i: int)
    requires
        0 <= i < keys.len(),
        keys[i] == k,
    ensures
        first_pos(keys, k) is Some,
    decreases i,
{
    if exists|j: int| 0 <= j < i && keys[j] == k {
        let j = choose|j: int| 0 <= j < i && keys[j] == k;
        lemma_first_below(keys, k, j);
    } else {
        assert(forall|j: int| 0 <= j < i ==> keys[j] != k);
    }
}

proof fn lemma_first_pos(keys: Seq<Seq<char>>, k: Seq<char>)
    ensures
        match first_pos(keys, k) {
            Some(i) => 0 <= i < keys.len() && keys[i] == k && forall|j: int|
                0 <= j < i ==> keys[j] != k,
            None => forall|j: int| 0 <= j < keys.len() ==> keys[j] != k,
        },
{
    if first_pos(keys, k) is None {
        assert forall|j: int| 0 <= j < keys.len() implies keys[j] != k by {
            if keys[j] == k {
                lemma_first_below(keys, k, j);
            }
        }
    }
}

proof fn lemma_first_pos_at(keys: Seq<Seq<char>>, k: Seq<char>, i: int)
    requires
        0 <= i < keys.len(),
        keys[i] == k,
        forall|j: int| 0 <= j < i ==> keys[j] != k,
    ensures
        first_pos(keys, k) == Some(i),
{
    let m = choose|m: int|
        0 <= m < keys.len() && keys[m] == k && forall|j: int| 0 <= j < m ==> keys[j] != k;
    assert(m == i) by {
        if m < i {
        } else if m > i {
        }
    }
}

proof fn lemma_first_pos_push(keys: Seq<Seq<char>>, k: Seq<char>, x: Seq<char>)
    requires
        first_pos(keys, x) is None,
    ensures
        first_pos(keys.push(x), k) == if k == x {
            Some(keys.len() as int)
        } else {
            first_pos(keys, k)
        },
{
    let ks = keys.push(x);
    lemma_first_pos(keys, x);
    lemma_first_pos(keys, k);
    if k == x {
        lemma_first_pos_at(ks, k, keys.len() as int);
    } else {
        match first_pos(keys, k) {
            Some(i) => {
                lemma_first_pos_at(ks, k, i);
            },
            None => {
                assert(forall|j: int| 0 <= j < ks.len() ==> ks[j] != k);
            },
        }
    }
}

/// Arguments of a command, in the order their keys first appeared.
pub struct CommandArgs {
    pub entries: Vec<(String, String)>,
}

/// The keys of a list of entries.
pub open spec fn keys_of(entries: Seq<(String, String)>) -> Seq<Seq<char>> {
    entries.map_values(|e: (String, String)| e.0@)
}

impl View for CommandArgs {
    type V = Map<Seq<char>, Seq<char>>;

    /// Each key maps to the value of its first entry.
    open spec fn view(&self) -> Map<Seq<char>, Seq<char>> {
        Map::new(
            |k: Seq<char>| first_pos(keys_of(self.entries@), k) is Some,
            |k: Seq<char>| self.entries@[first_pos(keys_of(self.entries@), k)->0].1@,
        )
    }
}

impl CommandArgs {
    /// No arguments.
    pub fn new() -> (r: CommandArgs)
        ensures
            r@ == Map::<Seq<char>, Seq<char>>::empty(),
    {
        let r = CommandArgs { entries: Vec::new() };
        assert(r@ =~= Map::<Seq<char>, Seq<char>>::empty());
        r
    }

    fn position(&self, key: &str) -> (r: Option<usize>)
        ensures
            match r {
                Some(i) => first_pos(keys_of(self.entries@), key@) == Some(i as int) && i
                    < self.entries@.len(),
                None => first_pos(keys_of(self.entries@), key@) is None,
            },
    {
        let ghost ks = keys_of(self.entries@);
        let target = String::from_str(key);
        let mut i: usize = 0;
        while i < self.entries.len()
            invariant
                i <= self.entries.len(),
                ks == keys_of(self.entries@),
                target@ == key@,
                forall|j: int| 0 <= j < i ==> ks[j] != key@,
            decreases self.entries.len() - i,
        {
            if self.entries[i].0 == target {
                proof {
                    lemma_first_pos_at(ks, key@, i as int);
                }
                return Some(i);
            }
            i = i + 1;
        }
        proof {
            if first_pos(ks, key@) is Some {
                lemma_first_pos(ks, key@);
            }
        }
        None
    }

    /// The value of `key`, if it has one.
    pub fn get(&self, key: &str) -> (r: Option<&String>)
        ensures
            match r {
                Some(v) => self@.contains_key(key@) && v@ == self@[key@],
                None => !self@.contains_key(key@),
            },
    {
        match self.position(key) {
            Some(i) => Some(&self.entries[i].1),
            None => None,
        }
    }

    /// Whether `key` has a value.
    pub fn contains_key(&self, key: &str) -> (r: bool)
        ensures
            r == self@.contains_key(key@),
    {
        self.position(key).is_some()
    }

    /// Sets the value of `key`, replacing an earlier one.
    pub fn insert(&mut self, key: String, value: String)
        ensures
            final(self)@ == old(self)@.insert(key@, value@),
    {
        let ghost ks = keys_of(self.entries@);
        match self.position(key.as_str()) {
            Some(i) => {
                let ghost kv = key@;
                self.entries.set(i, (key, value));
                proof {
                    assert(keys_of(self.entries@) =~= ks);
                    assert forall|k: Seq<char>| #[trigger]
                        self@.contains_key(k) == old(self)@.insert(kv, value@).contains_key(k) by {
                        lemma_first_pos(ks, k);
                    }
                    assert forall|k: Seq<char>| #[trigger] self@.contains_key(k) implies self@[k]
                        == old(self)@.insert(kv, value@)[k] by {
                        lemma_first_pos(ks, k);
                    }
                    assert(self@ =~= old(self)@.insert(kv, value@));
                }
            },
            None => {
                let ghost kv = key@;
                self.entries.push((key, value));
                proof {
                    assert(keys_of(self.entries@) =~= ks.push(kv));
                    assert forall|k: Seq<char>|
                        #![trigger first_pos(keys_of(self.entries@), k)]
                        first_pos(keys_of(self.entries@), k) == if k == kv {
                            Some(ks.len() as int)
                        } else {
                            first_pos(ks, k)
                        } by {
                        lemma_first_pos_push(ks, k, kv);
                    }
                    assert(self@ =~= old(self)@.insert(kv, value@));
                }
            },
        }
    }
}

/// A parsed command.
pub struct ParsedCommand {
    pub kind: CommandKind,
    pub args: CommandArgs,
}

/// Why a command text or a parsed command was rejected.
pub enum ParseError {
    EmptyCommand,
    UnknownCommandType(String),
    InvalidFormat(String),
    MissingArgument(String),
}

/// Model of a [`ParseError`].
pub enum ParseFailure {
    EmptyCommand,
    UnknownCommandType(Seq<char>),
    InvalidFormat(Seq<char>),
    MissingArgument(Seq<char>),
}

impl View for ParseError {
    type V = ParseFailure;

    open spec fn view(&self) -> ParseFailure {
        match self {
            ParseError::EmptyCommand => ParseFailure::EmptyCommand,
            ParseError::UnknownCommandType(s) => ParseFailure::UnknownCommandType(s@),
            ParseError::InvalidFormat(s) => ParseFailure::InvalidFormat(s@),
            ParseError::MissingArgument(s) => ParseFailure::MissingArgument(s@),
        }
    }
}

/// The message that a rejection shows the user.
pub open spec fn failure_message(f: ParseFailure) -> Seq<char> {
    match f {
        ParseFailure::EmptyCommand => "Команда не может быть пустой"@,
        ParseFailure::UnknownCommandType(c) => "Неизвестный тип команды: "@ + c,
        ParseFailure::InvalidFormat(m) => "Неверный формат: "@ + m,
        ParseFailure::MissingArgument(a) => "Отсутствует обязательный аргумент: "@ + a,
    }
}

impl ParseError {
    /// A message for the user.
    pub fn message(&self) -> (r: String)
        ensures
            r@ == failure_message(self@),
    {
        match self {
            ParseError::EmptyCommand => String::from_str("Команда не может быть пустой"),
            ParseError::UnknownCommandType(c) => concat2("Неизвестный тип команды: ", c.as_str()),
            ParseError::InvalidFormat(m) => concat2("Неверный формат: ", m.as_str()),
            ParseError::MissingArgument(a) => concat2("Отсутствует обязательный аргумент: ", a.as_str()),
        }
    }
}

/// The uppercase mapping of a text, as Rust's standard library computes it.
pub uninterp spec fn upper_of(s: Seq<char>) -> Seq<char>;

/// Relies on `str::to_uppercase`: the full Unicode uppercase mapping, which
/// depends on the characters alone.
#[verifier::external_body]
fn uppercase(s: &str) -> (r: String)
    ensures
        r@ == upper_of(s@),
{
    s.to_uppercase()
}

/// The command named by an uppercased first line.
pub open spec fn kind_for(upper: Seq<char>) -> Option<CommandKind> {
    if upper == "INDEX KNOWLEDGE"@ {
        Some(CommandKind::IndexKnowledge)
    } else if upper == "TRAIN AGENT"@ {
        Some(CommandKind::TrainAgent)
    } else if upper == "GIT PUSH"@ {
        Some(CommandKind::GitPush)
    } else {
        None
    }
}

/// The command named by a first line, compared after uppercasing.
pub fn command_kind(first_line: &str) -> (r: Option<CommandKind>)
    ensures
        r == kind_for(upper_of(first_line@)),
{
    let upper = uppercase(first_line);
    if same_text(upper.as_str(), "INDEX KNOWLEDGE") {
        Some(CommandKind::IndexKnowledge)
    } else if same_text(upper.as_str(), "TRAIN AGENT") {
        Some(CommandKind::TrainAgent)
    } else if same_text(upper.as_str(), "GIT PUSH") {
        Some(CommandKind::GitPush)
    } else {
        None
    }
}

/// A value written between double quotes.
pub open spec fn quoted(v: Seq<char>) -> bool {
    v.len() >= 2 && v[0] == '"' && v.last() == '"'
}

pub open spec fn unquoted_message(line_no: nat) -> Seq<char> {
    "Строка "@ + decimal(line_no) + ": значение должно быть в кавычках (KEY=\"VALUE\")"@
}

pub open spec fn malformed_message(line_no: nat) -> Seq<char> {
    "Строка "@ + decimal(line_no) + ": ожидается формат KEY=\"VALUE\""@
}

/// Reads argument line `line`, numbered `line_no` from 1, into `args`:
/// an empty line is skipped; `KEY="VALUE"` sets `KEY`, both sides trimmed;
/// anything else is rejected with a message naming the line.
pub open spec fn read_arg_line(
    args: Map<Seq<char>, Seq<char>>,
    line: Seq<char>,
    line_no: nat,
) -> Result<Map<Seq<char>, Seq<char>>, Seq<char>> {
    if line.len() == 0 {
        Ok(args)
    } else {
        match first_index_of(line, '=') {
            None => Err(malformed_message(line_no)),
            Some(p) => {
                let key = trim(line.subrange(0, p));
                let v = trim(line.subrange(p + 1, line.len() as int));
                if quoted(v) {
                    Ok(args.insert(key, v.subrange(1, v.len() - 1)))
                } else {
                    Err(unquoted_message(line_no))
                }
            },
        }
    }
}

/// Reads the argument lines from index `from` on into `args`.
pub open spec fn read_args(lines: Seq<Seq<char>>, from: int, args: Map<Seq<char>, Seq<char>>) -> Result<
    Map<Seq<char>, Seq<char>>,
    Seq<char>,
>
    decreases lines.len() - from,
{
    if from < 0 || from >= lines.len() {
        Ok(args)
    } else {
        match read_arg_line(args, lines[from], (from + 1) as nat) {
            Ok(a) => read_args(lines, from + 1, a),
            Err(m) => Err(m),
        }
    }
}

/// The lines of a command text: the trimmed text split at newlines, each
/// line trimmed.
pub open spec fn command_lines(text: Seq<char>) -> Seq<Seq<char>> {
    newline_pieces(trim(text)).map_values(|l: Seq<char>| trim(l))
}

/// What parsing `text` gives: its command and arguments, or the rejection.
pub open spec fn parse_outcome(text: Seq<char>) -> Result<
    (CommandKind, Map<Seq<char>, Seq<char>>),
    ParseFailure,
> {
    if trim(text).len() == 0 {
        Err(ParseFailure::EmptyCommand)
    } else {
        let lines = command_lines(text);
        match kind_for(upper_of(lines[0])) {
            None => Err(ParseFailure::UnknownCommandType(lines[0])),
            Some(kind) => match read_args(lines, 1, Map::empty()) {
                Ok(args) => Ok((kind, args)),
                Err(m) => Err(ParseFailure::InvalidFormat(m)),
            },
        }
    }
}

/// Reads one argument line, numbered `line_no`, into `args`.
fn read_line_into(args: &mut CommandArgs, line: &str, line_no: usize) -> (r: Result<(), String>)
    ensures
        match read_arg_line(old(args)@, line@, line_no as nat) {
            Ok(a) => r is Ok && final(args)@ == a,
            Err(m) => r matches Err(e) && e@ == m,
        },
{
    if line.unicode_len() == 0 {
        return Ok(());
    }
    match find_char(line, '=') {
        None => {
            let mut m = String::from_str("Строка ");
            push_decimal(&mut m, line_no as u64);
            m.append(": ожидается формат KEY=\"VALUE\"");
            Err(m)
        },
        Some(p) => {
            let n = line.unicode_len();
            let key = trim_str(line.substring_char(0, p));
            let v = trim_str(line.substring_char(p + 1, n));
            let vn = v.unicode_len();
            if vn >= 2 && v.get_char(0) == '"' && v.get_char(vn - 1) == '"' {
                let value = String::from_str(v.substring_char(1, vn - 1));
                args.insert(String::from_str(key), value);
                Ok(())
            } else {
                let mut m = String::from_str("Строка ");
                push_decimal(&mut m, line_no as u64);
                m.append(": значение должно быть в кавычках (KEY=\"VALUE\")");
                Err(m)
            }
        },
    }
}

/// Parses a command text: the trimmed text must not be empty, its first
/// line must name a known command (case-insensitively), and every other
/// non-empty line must be `KEY="VALUE"`.
pub fn parse_command(text: &str) -> (r: Result<ParsedCommand, ParseError>)
    ensures
        match parse_outcome(text@) {
            Ok((kind, args)) => r matches Ok(c) && c.kind == kind && c.args@ == args,
            Err(f) => r matches Err(e) && e@ == f,
        },
{
    let t = trim_str(text);
    if t.unicode_len() == 0 {
        return Err(ParseError::EmptyCommand);
    }
    let pieces = split_newlines(t);
    let ghost lines = command_lines(text@);
    assert(views(pieces@).len() == pieces@.len());
    assert(lines.len() == pieces@.len());
    let first = trim_str(pieces[0].as_str());
    assert(first@ == lines[0]);
    let kind = match command_kind(first) {
        None => return Err(ParseError::UnknownCommandType(String::from_str(first))),
        Some(k) => k,
    };
    let mut args = CommandArgs::new();
    let mut i: usize = 1;
    while i < pieces.len()
        invariant
            views(pieces@) == newline_pieces(t@),
            t@ == trim(text@),
            lines == command_lines(text@),
            lines.len() == pieces@.len(),
            1 <= i <= pieces@.len(),
            trim(text@).len() > 0,
            kind_for(upper_of(lines[0])) == Some(kind),
            read_args(lines, 1, Map::empty()) == read_args(lines, i as int, args@),
        decreases pieces.len() - i,
    {
        let line = trim_str(pieces[i].as_str());
        assert(line@ == lines[i as int]);
        let ghost before = args@;
        match read_line_into(&mut args, line, i + 1) {
            Ok(()) => {},
            Err(m) => {
                proof {
                    assert(read_args(lines, i as int, before) == Err::<Map<Seq<char>, Seq<char>>, Seq<char>>(m@));
                }
                return Err(ParseError::InvalidFormat(m));
            },
        }
        i = i + 1;
    }
    Ok(ParsedCommand { kind, args })
}

/// Model of a validation result.
pub open spec fn check_view(r: Result<(), ParseError>) -> Result<(), ParseFailure> {
    match r {
        Ok(()) => Ok(()),
        Err(e) => Err(e@),
    }
}

/// The allowed values of `MODE` for `INDEX KNOWLEDGE`.
pub open spec fn index_mode_allowed(m: Seq<char>) -> bool {
    m == "local"@ || m == "global"@ || m == "hybrid"@ || m == "naive"@
}

/// The verdict on an `INDEX KNOWLEDGE` command.
pub open spec fn index_check(kind: CommandKind, args: Map<Seq<char>, Seq<char>>) -> Result<(), ParseFailure> {
    if kind != CommandKind::IndexKnowledge {
        Err::<(), ParseFailure>(ParseFailure::InvalidFormat("Не INDEX KNOWLEDGE команда"@))
    } else if !args.contains_key("PATH"@) {
        Err(ParseFailure::MissingArgument("PATH"@))
    } else if args.contains_key("MODE"@) && !index_mode_allowed(args["MODE"@]) {
        Err(
            ParseFailure::InvalidFormat(
                "MODE должен быть одним из: [\"local\", \"global\", \"hybrid\", \"naive\"]"@,
            ),
        )
    } else {
        Ok(())
    }
}

/// Checks an `INDEX KNOWLEDGE` command: `PATH` is required, and `MODE`,
/// when given, is `local`, `global`, `hybrid` or `naive`.
pub fn validate_index_knowledge(cmd: &ParsedCommand) -> (r: Result<(), ParseError>)
    ensures
        check_view(r) == index_check(cmd.kind, cmd.args@),
{
    if cmd.kind != CommandKind::IndexKnowledge {
        return Err(ParseError::InvalidFormat(String::from_str("Не INDEX KNOWLEDGE команда")));
    }
    if !cmd.args.contains_key("PATH") {
        return Err(ParseError::MissingArgument(String::from_str("PATH")));
    }
    match cmd.args.get("MODE") {
        Some(mode) => {
            let m = mode.as_str();
            if !(same_text(m, "local") || same_text(m, "global") || same_text(m, "hybrid")
                || same_text(m, "naive")) {
                return Err(
                    ParseError::InvalidFormat(
                        String::from_str(
                            "MODE должен быть одним из: [\"local\", \"global\", \"hybrid\", \"naive\"]",
                        ),
                    ),
                );
            }
        },
        None => {},
    }
    Ok(())
}

/// Decimal value of a string of ASCII digits.
pub open spec fn digits_value(d: Seq<char>) -> nat
    decreases d.len(),
{
    if d.len() == 0 {
        0
    } else {
        digits_value(d.drop_last()) * 10 + (d.last() as nat - '0' as nat) as nat
    }
}

/// A number's text without its optional leading `+`.
pub open spec fn unsigned_digits(s: Seq<char>) -> Seq<char> {
    if s.len() > 0 && s[0] == '+' {
        s.drop_first()
    } else {
        s
    }
}

/// A text that Rust reads as a `u32`: an optional `+`, then at least one
/// ASCII digit and nothing else, with a value below 2^32.
pub open spec fn parses_as_u32(s: Seq<char>) -> bool {
    let d = unsigned_digits(s);
    &&& d.len() > 0
    &&& forall|i: int| 0 <= i < d.len() ==> '0' <= #[trigger] d[i] <= '9'
    &&& digits_value(d) <= u32::MAX
}

const U32_CAP: u64 = 0x1_0000_0000;

/// The `u32` that `s` reads as, if it reads as one.
pub fn parse_u32(s: &str) -> (r: Option<u32>)
    ensures
        r is Some <==> parses_as_u32(s@),
        r matches Some(v) ==> v == digits_value(unsigned_digits(s@)),
{
    let n = s.unicode_len();
    let start: usize = if n > 0 && s.get_char(0) == '+' {
        1
    } else {
        0
    };
    let ghost d = unsigned_digits(s@);
    assert(d =~= s@.subrange(start as int, n as int));
    if start >= n {
        return None;
    }
    let mut value: u64 = 0;
    let mut i: usize = start;
    while i < n
        invariant
            n == s@.len(),
            start <= i <= n,
            d == s@.subrange(start as int, n as int),
            d == unsigned_digits(s@),
            forall|j: int| 0 <= j < i - start ==> '0' <= #[trigger] d[j] <= '9',
            value as nat == if digits_value(d.take(i - start)) < U32_CAP {
                digits_value(d.take(i - start))
            } else {
                U32_CAP as nat
            },
        decreases n - i,
    {
        let c = s.get_char(i);
        if !('0' <= c && c <= '9') {
            let ghost at = (i - start) as int;
            assert(d[at] == c);
            assert(!('0' <= d[at] <= '9'));
            assert(!parses_as_u32(s@));
            return None;
        }
        let digit = (c as u32 - '0' as u32) as u64;
        let ghost prev = d.take(i - start);
        let ghost next = d.take(i - start + 1);
        assert(next.drop_last() =~= prev);
        assert(next.last() == c);
        assert(digits_value(next) == digits_value(prev) * 10 + digit);
        if value >= U32_CAP {
            assert(digits_value(next) >= U32_CAP) by (nonlinear_arith)
                requires
                    digits_value(prev) >= U32_CAP,
                    digits_value(next) == digits_value(prev) * 10 + digit,
            ;
        } else {
            value = value * 10 + digit;
            if value > U32_CAP {
                value = U32_CAP;
            }
        }
        i = i + 1;
    }
    assert(d.take(n - start) =~= d);
    if value < U32_CAP {
        Some(value as u32)
    } else {
        None
    }
}

/// The verdict on a `TRAIN AGENT` command.
pub open spec fn train_check(kind: CommandKind, args: Map<Seq<char>, Seq<char>>) -> Result<(), ParseFailure> {
    if kind != CommandKind::TrainAgent {
        Err::<(), ParseFailure>(ParseFailure::InvalidFormat("Не TRAIN AGENT команда"@))
    } else if !args.contains_key("PROFILE"@) {
        Err(ParseFailure::MissingArgument("PROFILE"@))
    } else if !args.contains_key("DATA_PATH"@) {
        Err(ParseFailure::MissingArgument("DATA_PATH"@))
    } else if args.contains_key("EPOCHS"@) && !parses_as_u32(args["EPOCHS"@]) {
        Err(ParseFailure::InvalidFormat("EPOCHS должен быть целым числом"@))
    } else {
        Ok(())
    }
}

/// Checks a `TRAIN AGENT` command: `PROFILE` and `DATA_PATH` are required,
/// and `EPOCHS`, when given, must read as a whole number.
pub fn validate_train_agent(cmd: &ParsedCommand) -> (r: Result<(), ParseError>)
    ensures
        check_view(r) == train_check(cmd.kind, cmd.args@),
{
    if cmd.kind != CommandKind::TrainAgent {
        return Err(ParseError::InvalidFormat(String::from_str("Не TRAIN AGENT команда")));
    }
    if !cmd.args.contains_key("PROFILE") {
        return Err(ParseError::MissingArgument(String::from_str("PROFILE")));
    }
    if !cmd.args.contains_key("DATA_PATH") {
        return Err(ParseError::MissingArgument(String::from_str("DATA_PATH")));
    }
    match cmd.args.get("EPOCHS") {
        Some(epochs) => {
            if parse_u32(epochs.as_str()).is_none() {
                return Err(
                    ParseError::InvalidFormat(String::from_str("EPOCHS должен быть целым числом")),
                );
            }
        },
        None => {},
    }
    Ok(())
}

/// The verdict on a `GIT PUSH` command.
pub open spec fn git_check(kind: CommandKind, args: Map<Seq<char>, Seq<char>>) -> Result<(), ParseFailure> {
    if kind != CommandKind::GitPush {
        Err::<(), ParseFailure>(ParseFailure::InvalidFormat("Не GIT PUSH команда"@))
    } else if !args.contains_key("REPO_PATH"@) {
        Err(ParseFailure::MissingArgument("REPO_PATH"@))
    } else {
        Ok(())
    }
}

/// Checks a `GIT PUSH` command: `REPO_PATH` is required; `BRANCH` and
/// `SUMMARY` are optional.
pub fn validate_git_push(cmd: &ParsedCommand) -> (r: Result<(), ParseError>)
    ensures
        check_view(r) == git_check(cmd.kind, cmd.args@),
{
    if cmd.kind != CommandKind::GitPush {
        return Err(ParseError::InvalidFormat(String::from_str("Не GIT PUSH команда")));
    }
    if !cmd.args.contains_key("REPO_PATH") {
        return Err(ParseError::MissingArgument(String::from_str("REPO_PATH")));
    }
    Ok(())
}

} // verus!
