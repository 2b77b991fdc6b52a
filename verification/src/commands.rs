//! Slash commands: type `/` at the start of the input to get a filtered
//! completion list, Tab to complete, Enter to run.

use crate::text;
use crate::text::{
    blank, lemma_trimmed_around, lemma_trimmed_blank, lemma_trimmed_end_rest, lemma_trimmed_end_take,
    lemma_word_len, trimmed, trimmed_end, trimmed_start, white_space, without_leading, word_len,
};
use vstd::prelude::*;

verus! {

#[derive(Debug, Clone, Copy)]
pub struct Command {
    pub name: &'static str,
    pub aliases: &'static [&'static str],
    /// Argument hint shown in the completion list, empty if the command takes none.
    pub args: &'static str,
    pub help: &'static str,
}

/// The characters of a [`Command`].
pub struct CommandModel {
    pub name: Seq<char>,
    pub aliases: Seq<Seq<char>>,
    pub args: Seq<char>,
    pub help: Seq<char>,
}

impl DeepView for Command {
    type V = CommandModel;

    open spec fn deep_view(&self) -> CommandModel {
        CommandModel {
            name: self.name@,
            aliases: self.aliases.deep_view(),
            args: self.args@,
            help: self.help@,
        }
    }
}

/// The commands, in the order in which they are listed.
pub open spec fn command_table() -> Seq<CommandModel> {
    seq![
        CommandModel {
            name: "help"@,
            aliases: seq!["?"@],
            args: ""@,
            help: "show keys and commands"@,
        },
        CommandModel {
            name: "model"@,
            aliases: seq!["models"@],
            args: "[id]"@,
            help: "pick a model, or set one by id"@,
        },
        CommandModel {
            name: "new"@,
            aliases: seq!["clear"@],
            args: ""@,
            help: "start a new session"@,
        },
        CommandModel {
            name: "sessions"@,
            aliases: seq!["resume"@],
            args: ""@,
            help: "reopen a saved session"@,
        },
        CommandModel {
            name: "chat"@,
            aliases: seq![],
            args: ""@,
            help: "switch to chat mode"@,
        },
        CommandModel {
            name: "agent"@,
            aliases: seq![],
            args: ""@,
            help: "switch to agent mode"@,
        },
        CommandModel {
            name: "quit"@,
            aliases: seq!["exit"@, "q"@],
            args: ""@,
            help: "leave maplet"@,
        },
    ]
}

/// The commands, in the order in which they are listed.
pub fn commands() -> (r: Vec<Command>)
    ensures
        r.deep_view() == command_table(),
{
    let r: Vec<Command> = vec![
        Command { name: "help", aliases: &["?"], args: "", help: "show keys and commands" },
        Command {
            name: "model",
            aliases: &["models"],
            args: "[id]",
            help: "pick a model, or set one by id",
        },
        Command { name: "new", aliases: &["clear"], args: "", help: "start a new session" },
        Command {
            name: "sessions",
            aliases: &["resume"],
            args: "",
            help: "reopen a saved session",
        },
        Command { name: "chat", aliases: &[], args: "", help: "switch to chat mode" },
        Command { name: "agent", aliases: &[], args: "", help: "switch to agent mode" },
        Command { name: "quit", aliases: &["exit", "q"], args: "", help: "leave maplet" },
    ];
    proof {
        let t = command_table();
        let d = r.deep_view();
        assert(d[0].aliases =~= t[0].aliases);
        assert(d[1].aliases =~= t[1].aliases);
        assert(d[2].aliases =~= t[2].aliases);
        assert(d[3].aliases =~= t[3].aliases);
        assert(d[4].aliases =~= t[4].aliases);
        assert(d[5].aliases =~= t[5].aliases);
        assert(d[6].aliases =~= t[6].aliases);
        assert(d =~= t);
    }
    r
}

/// Whether the command goes by this name.
pub open spec fn answers_to(c: CommandModel, name: Seq<char>) -> bool {
    c.name == name || c.aliases.contains(name)
}

/// Whether the command's name or one of its aliases starts with `prefix`.
pub open spec fn offered_for(c: CommandModel, prefix: Seq<char>) -> bool {
    prefix.is_prefix_of(c.name) || exists|i: int|
        0 <= i < c.aliases.len() && prefix.is_prefix_of(#[trigger] c.aliases[i])
}

/// The first command of `table` that goes by `name`.
pub open spec fn find_command(table: Seq<CommandModel>, name: Seq<char>) -> Option<CommandModel>
    decreases table.len(),
{
    if table.len() == 0 {
        None
    } else if answers_to(table[0], name) {
        Some(table[0])
    } else {
        find_command(table.drop_first(), name)
    }
}

/// The commands to offer for what was typed after the slash.
pub open spec fn matching_commands(prefix: Seq<char>) -> Seq<CommandModel> {
    command_table().filter(|c: CommandModel| offered_for(c, prefix))
}

impl Command {
    /// Whether the command goes by this name.
    pub fn answers_to(&self, name: &str) -> (r: bool)
        ensures
            r == answers_to(self.deep_view(), name@),
    {
        if text::same(self.name, name) {
            return true;
        }
        let mut i: usize = 0;
        while i < self.aliases.len()
            invariant
                i <= self.aliases.len(),
                self.name@ != name@,
                forall|k: int| 0 <= k < i ==> #[trigger] self.deep_view().aliases[k] != name@,
            decreases self.aliases.len() - i,
        {
            if text::same(self.aliases[i], name) {
                assert(self.deep_view().aliases[i as int] == name@);
                return true;
            }
            i += 1;
        }
        false
    }

    /// Whether the command's name or one of its aliases starts with `prefix`.
    pub fn offered_for(&self, prefix: &str) -> (r: bool)
        ensures
            r == offered_for(self.deep_view(), prefix@),
    {
        if text::starts_with(self.name, prefix) {
            return true;
        }
        let mut i: usize = 0;
        while i < self.aliases.len()
            invariant
                i <= self.aliases.len(),
                !prefix@.is_prefix_of(self.name@),
                forall|k: int|
                    0 <= k < i ==> !prefix@.is_prefix_of(#[trigger] self.deep_view().aliases[k]),
            decreases self.aliases.len() - i,
        {
            if text::starts_with(self.aliases[i], prefix) {
                assert(prefix@.is_prefix_of(self.deep_view().aliases[i as int]));
                return true;
            }
            i += 1;
        }
        false
    }
}

/// The command that goes by `name`; slashes before the name are ignored.
pub fn lookup(name: &str) -> (r: Option<Command>)
    ensures
        r.deep_view() == find_command(command_table(), without_leading(name@, '/')),
{
    let bare = text::strip_leading(name, '/');
    let table = commands();
    let mut i: usize = 0;
    proof {
        assert(command_table().skip(0) =~= command_table());
    }
    while i < table.len()
        invariant
            i <= table.len(),
            table.deep_view() == command_table(),
            bare@ == without_leading(name@, '/'),
            find_command(command_table(), bare@) == find_command(
                command_table().skip(i as int),
                bare@,
            ),
        decreases table.len() - i,
    {
        proof {
            assert(command_table()[i as int] == table[i as int].deep_view());
            assert(command_table().skip(i as int)[0] == table[i as int].deep_view());
            assert(command_table().skip(i as int).drop_first() =~= command_table().skip(i + 1));
        }
        if table[i].answers_to(bare.as_str()) {
            return Some(table[i]);
        }
        i += 1;
    }
    None
}

/// Commands whose name or aliases start with `prefix` (the text after `/`).
pub fn matching(prefix: &str) -> (r: Vec<Command>)
    ensures
        r.deep_view() == matching_commands(prefix@),
{
    let table = commands();
    let mut out: Vec<Command> = Vec::new();
    let mut i: usize = 0;
    let ghost keep = |c: CommandModel| offered_for(c, prefix@);
    proof {
        reveal(Seq::filter);
        assert(command_table().take(0) =~= Seq::<CommandModel>::empty());
    }
    while i < table.len()
        invariant
            i <= table.len(),
            keep == (|c: CommandModel| offered_for(c, prefix@)),
            table.deep_view() == command_table(),
            out.deep_view() =~= command_table().take(i as int).filter(keep),
        decreases table.len() - i,
    {
        let ghost before = out.deep_view();
        let ghost c = table[i as int].deep_view();
        proof {
            reveal(Seq::filter);
            assert(command_table()[i as int] == c);
            assert(command_table().take(i + 1).drop_last() =~= command_table().take(i as int));
        }
        if table[i].offered_for(prefix) {
            out.push(table[i]);
            proof {
                assert(out.deep_view() =~= before.push(c));
            }
        }
        i += 1;
    }
    proof {
        assert(command_table().take(i as int) =~= command_table());
    }
    out
}

/// Input that starts with a slash.
pub enum Parsed {
    Known(Command, String),
    Unknown(String),
}

pub enum ParsedModel {
    Known(CommandModel, Seq<char>),
    Unknown(Seq<char>),
}

impl DeepView for Parsed {
    type V = ParsedModel;

    open spec fn deep_view(&self) -> ParsedModel {
        match self {
            Parsed::Known(c, args) => ParsedModel::Known(c.deep_view(), args@),
            Parsed::Unknown(name) => ParsedModel::Unknown(name@),
        }
    }
}

/// Whether the text, without white space around it, is a slash and something
/// after it.
pub open spec fn is_command(input: Seq<char>) -> bool {
    trimmed(input).len() > 1 && trimmed(input)[0] == '/'
}

/// The word after the slash.
pub open spec fn command_name(input: Seq<char>) -> Seq<char> {
    let rest = trimmed(input).skip(1);
    rest.take(word_len(rest) as int)
}

/// What follows the word after the slash.
pub open spec fn command_args(input: Seq<char>) -> Seq<char> {
    let rest = trimmed(input).skip(1);
    if word_len(rest) < rest.len() {
        trimmed(rest.skip(word_len(rest) as int + 1))
    } else {
        Seq::empty()
    }
}

/// How input is read: a command, an unknown command, or an ordinary message.
pub open spec fn parsed(input: Seq<char>) -> Option<ParsedModel> {
    if is_command(input) {
        Some(
            match find_command(command_table(), without_leading(command_name(input), '/')) {
                Some(c) => ParsedModel::Known(c, command_args(input)),
                None => ParsedModel::Unknown(command_name(input)),
            },
        )
    } else {
        None
    }
}

/// White space around the input makes no difference to how it is read.
pub proof fn surrounding_space_is_ignored(before: Seq<char>, input: Seq<char>, after: Seq<char>)
    requires
        blank(before),
        blank(after),
    ensures
        parsed(before + input + after) == parsed(input),
{
    lemma_trimmed_around(before, input, after);
}

/// A slash, a name, white space and arguments come apart: a command that goes by the
/// name gets the arguments without the white space around them, and a name that no
/// command goes by is reported on its own.
pub proof fn name_and_arguments_come_apart(name: Seq<char>, gap: char, args: Seq<char>)
    requires
        name.len() > 0,
        forall|i: int| 0 <= i < name.len() ==> !white_space(#[trigger] name[i]),
        white_space(gap),
    ensures
        parsed(seq!['/'] + name + seq![gap] + args) == Some(
            match find_command(command_table(), without_leading(name, '/')) {
                Some(c) => ParsedModel::Known(c, trimmed(args)),
                None => ParsedModel::Unknown(name),
            },
        ),
{
    let input = seq!['/'] + name + seq![gap] + args;
    let n = name.len() as int;
    assert(!white_space('/'));
    assert(input[0] == '/');
    assert(trimmed_start(input) == input);
    lemma_trimmed_end_rest(input);
    lemma_trimmed_end_rest(args);
    let kept = trimmed_end(args).len() as int;
    let behind = args.skip(kept);
    if kept == 0 {
        // Nothing but white space follows the name.
        let tail = seq![gap] + args;
        assert(behind =~= args);
        lemma_trimmed_blank(args);
        assert forall|i: int| n + 1 <= i < input.len() implies white_space(#[trigger] input[i]) by {
            if i > n + 1 {
                assert(input[i] == args[i - n - 2]);
            }
        }
        lemma_trimmed_end_take(input, n + 1);
        assert(input.take(n + 1) =~= seq!['/'] + name);
        let word = seq!['/'] + name;
        assert(word.last() == name[n - 1]);
        assert(trimmed(input) == word);
        assert(word.skip(1) =~= name);
        lemma_word_len(name, n);
        assert(name.take(n) =~= name);
    } else {
        let end = n + 2 + kept;
        assert forall|i: int| end <= i < input.len() implies white_space(#[trigger] input[i]) by {
            assert(input[i] == behind[i - end]);
        }
        lemma_trimmed_end_take(input, end);
        let whole = input.take(end);
        assert(whole.last() == trimmed_end(args).last());
        assert(trimmed(input) == whole);
        let rest = whole.skip(1);
        assert forall|i: int| 0 <= i < n implies !white_space(#[trigger] rest[i]) by {
            assert(rest[i] == name[i]);
        }
        assert(rest[n] == gap);
        lemma_word_len(rest, n);
        assert(rest.take(n) =~= name);
        assert(rest.skip(n + 1) =~= trimmed_end(args));
        lemma_trimmed_around(Seq::empty(), trimmed_end(args), behind);
        assert(Seq::<char>::empty() + trimmed_end(args) + behind =~= args);
    }
}

/// Parse input as a slash command. Returns None when it is an ordinary message.
pub fn parse(input: &str) -> (r: Option<Parsed>)
    ensures
        r.deep_view() == parsed(input@),
{
    let input = text::trim(input);
    proof {
        reveal_strlit("/");
        if input@.len() > 0 && input@[0] == '/' {
            assert(input@.take(1) =~= "/"@);
        }
        if "/"@.is_prefix_of(input@) {
            assert(input@.take(1)[0] == '/');
        }
    }
    match text::strip_prefix(input.as_str(), "/") {
        None => None,
        Some(rest) => {
            if rest.as_str().is_empty() {
                return None;
            }
            let (name, tail) = text::split_word(rest.as_str());
            let args = match tail {
                Some(tail) => text::trim(tail.as_str()),
                None => String::new(),
            };
            match lookup(name.as_str()) {
                Some(cmd) => Some(Parsed::Known(cmd, args)),
                None => Some(Parsed::Unknown(name)),
            }
        },
    }
}

/// The completion popup shown while typing a command name.
pub struct Completion {
    pub items: Vec<Command>,
    pub selected: usize,
}

pub struct CompletionModel {
    pub items: Seq<CommandModel>,
    pub selected: nat,
}

impl DeepView for Completion {
    type V = CompletionModel;

    open spec fn deep_view(&self) -> CompletionModel {
        CompletionModel { items: self.items.deep_view(), selected: self.selected as nat }
    }
}

impl CompletionModel {
    /// The highlighted entry is one of the entries, and all are commands.
    pub open spec fn valid(self) -> bool {
        &&& self.selected < self.items.len() <= command_table().len()
        &&& forall|i: int| 0 <= i < self.items.len() ==> command_table().contains(#[trigger] self.items[i])
    }
}

/// The number of entries before the first one named `name`, all if there is none.
pub open spec fn entries_before(items: Seq<CommandModel>, name: Seq<char>) -> nat
    decreases items.len(),
{
    if items.len() == 0 || items[0].name == name {
        0
    } else {
        1 + entries_before(items.drop_first(), name)
    }
}

/// Where the highlight goes: it stays on the command it was on while that is
/// still offered, and goes to the first otherwise.
pub open spec fn kept_selection(
    items: Seq<CommandModel>,
    previous: Option<CompletionModel>,
) -> nat {
    match previous {
        Some(p) => if p.selected < p.items.len() && entries_before(
            items,
            p.items[p.selected as int].name,
        ) < items.len() {
            entries_before(items, p.items[p.selected as int].name)
        } else {
            0
        },
        None => 0,
    }
}

/// The popup for a line of input: open while it is a bare `/name` fragment that
/// some command starts with.
pub open spec fn completion_for(
    input: Seq<char>,
    previous: Option<CompletionModel>,
) -> Option<CompletionModel> {
    if input.len() == 0 || input[0] != '/' || word_len(input.skip(1)) < input.skip(1).len() {
        None
    } else {
        let items = matching_commands(input.skip(1));
        if items.len() == 0 {
            None
        } else {
            Some(CompletionModel { items, selected: kept_selection(items, previous) })
        }
    }
}

proof fn lemma_entries_before(items: Seq<CommandModel>, name: Seq<char>)
    ensures
        entries_before(items, name) <= items.len(),
    decreases items.len(),
{
    if items.len() > 0 && items[0].name != name {
        lemma_entries_before(items.drop_first(), name);
    }
}

/// A popup that opens has its highlight inside the list, and lists commands only.
pub proof fn completion_is_valid(input: Seq<char>, previous: Option<CompletionModel>)
    ensures
        completion_for(input, previous) matches Some(c) ==> c.valid(),
{
    if completion_for(input, previous) is Some {
        let keep = |c: CommandModel| offered_for(c, input.skip(1));
        let items = matching_commands(input.skip(1));
        command_table().lemma_filter_len(keep);
        assert forall|i: int| 0 <= i < items.len() implies command_table().contains(#[trigger] items[i]) by {
            command_table().lemma_filter_contains_rev(keep, items[i]);
        }
        if previous is Some {
            lemma_entries_before(items, previous->0.items[previous->0.selected as int].name);
        }
    }
}

impl Completion {
    /// Some(..) while the input is a bare `/name` fragment with no argument yet.
    pub fn for_input(input: &str, previous: Option<&Completion>) -> (r: Option<Self>)
        ensures
            r.deep_view() == completion_for(input@, previous.deep_view()),
            r matches Some(c) ==> c.deep_view().valid(),
    {
        proof {
            reveal_strlit("/");
            if input@.len() > 0 && input@[0] == '/' {
                assert(input@.take(1) =~= "/"@);
            }
            if "/"@.is_prefix_of(input@) {
                assert(input@.take(1)[0] == '/');
            }
            completion_is_valid(input@, previous.deep_view());
        }
        let rest = match text::strip_prefix(input, "/") {
            Some(rest) => rest,
            None => {
                return None;
            },
        };
        let (_, tail) = text::split_word(rest.as_str());
        if tail.is_some() {
            return None;
        }
        let items = matching(rest.as_str());
        if items.len() == 0 {
            return None;
        }
        let mut selected: usize = 0;
        if let Some(p) = previous {
            if p.selected < p.items.len() {
                selected = position_named(&items, p.items[p.selected].name);
            }
        }
        Some(Completion { items, selected })
    }

    /// The highlighted command.
    pub fn selected(&self) -> (c: Command)
        requires
            self.selected < self.items.len(),
        ensures
            c == self.items@[self.selected as int],
    {
        self.items[self.selected]
    }
}

/// The position of the entry named `name`, the first if there is none.
fn position_named(items: &Vec<Command>, name: &str) -> (r: usize)
    ensures
        r == if entries_before(items.deep_view(), name@) < items.len() {
            entries_before(items.deep_view(), name@)
        } else {
            0
        },
{
    let mut i: usize = 0;
    let ghost all = items.deep_view();
    proof {
        assert(all.skip(0) =~= all);
    }
    while i < items.len()
        invariant
            i <= items.len(),
            all == items.deep_view(),
            entries_before(all, name@) == i + entries_before(all.skip(i as int), name@),
        decreases items.len() - i,
    {
        proof {
            assert(all[i as int] == items[i as int].deep_view());
            assert(all.skip(i as int).drop_first() =~= all.skip(i + 1));
        }
        if text::same(items[i].name, name) {
            return i;
        }
        i += 1;
    }
    0
}

} // verus!
