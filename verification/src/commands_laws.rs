//! What holds of the slash commands.

use crate::commands::{
    answers_to, command_table, completion_for, entries_before, find_command, matching_commands,
    offered_for, parsed, CommandModel, CompletionModel, ParsedModel,
};
use crate::text::{blank, white_space, without_leading, word_len};
use crate::text_laws::{tight, trimming_takes_white_space_off};
use vstd::prelude::*;

verus! {

/// The command that goes by a name or by another name for it.
pub open spec fn command_called(name: Seq<char>) -> Option<Seq<char>> {
    if name == "help"@ || name == "?"@ {
        Some("help"@)
    } else if name == "model"@ || name == "models"@ {
        Some("model"@)
    } else if name == "new"@ || name == "clear"@ {
        Some("new"@)
    } else if name == "sessions"@ || name == "resume"@ {
        Some("sessions"@)
    } else if name == "chat"@ {
        Some("chat"@)
    } else if name == "agent"@ {
        Some("agent"@)
    } else if name == "quit"@ || name == "exit"@ || name == "q"@ {
        Some("quit"@)
    } else {
        None
    }
}

/// The commands that there are, in the order in which they are listed, and what each is
/// said to do. One of them takes an argument.
pub proof fn there_are_seven_commands()
    ensures
        command_table().len() == 7,
        command_table()[0].name == "help"@,
        command_table()[1].name == "model"@,
        command_table()[2].name == "new"@,
        command_table()[3].name == "sessions"@,
        command_table()[4].name == "chat"@,
        command_table()[5].name == "agent"@,
        command_table()[6].name == "quit"@,
        command_table()[0].help == "show keys and commands"@,
        command_table()[1].help == "pick a model, or set one by id"@,
        command_table()[2].help == "start a new session"@,
        command_table()[3].help == "reopen a saved session"@,
        command_table()[4].help == "switch to chat mode"@,
        command_table()[5].help == "switch to agent mode"@,
        command_table()[6].help == "leave maplet"@,
        command_table()[1].args == "[id]"@,
        forall|i: int|
            0 <= i < 7 && i != 1 ==> (#[trigger] command_table()[i]).args.len() == 0,
{
    reveal_strlit("");
}

/// Whether the command goes by its name and by these other names, and by no other.
proof fn lemma_answers(name: Seq<char>)
    ensures
        answers_to(command_table()[0], name) <==> name == "help"@ || name == "?"@,
        answers_to(command_table()[1], name) <==> name == "model"@ || name == "models"@,
        answers_to(command_table()[2], name) <==> name == "new"@ || name == "clear"@,
        answers_to(command_table()[3], name) <==> name == "sessions"@ || name == "resume"@,
        answers_to(command_table()[4], name) <==> name == "chat"@,
        answers_to(command_table()[5], name) <==> name == "agent"@,
        answers_to(command_table()[6], name) <==> name == "quit"@ || name == "exit"@ || name
            == "q"@,
{
    let t = command_table();
    assert(t[0].aliases[0] == "?"@ && t[0].aliases.len() == 1);
    assert(t[1].aliases[0] == "models"@ && t[1].aliases.len() == 1);
    assert(t[2].aliases[0] == "clear"@ && t[2].aliases.len() == 1);
    assert(t[3].aliases[0] == "resume"@ && t[3].aliases.len() == 1);
    assert(t[4].aliases.len() == 0);
    assert(t[5].aliases.len() == 0);
    assert(t[6].aliases[0] == "exit"@ && t[6].aliases[1] == "q"@ && t[6].aliases.len() == 2);
}

/// Every command is found by its name and by its other names, and by nothing else.
pub proof fn commands_go_by_their_names(name: Seq<char>)
    ensures
        match find_command(command_table(), name) {
            Some(c) => command_called(name) == Some(c.name) && command_table().contains(c),
            None => command_called(name) is None,
        },
{
    let t = command_table();
    lemma_answers(name);
    lemma_found(t, name, 0);
    assert(t.skip(0) =~= t);
    let i = first_answering(t, name, 0);
    if i < t.len() {
        assert(t.contains(t[i]));
        assert(i == 0 || i == 1 || i == 2 || i == 3 || i == 4 || i == 5 || i == 6);
    } else {
        assert(!answers_to(t[0], name) && !answers_to(t[1], name) && !answers_to(t[2], name)
            && !answers_to(t[3], name) && !answers_to(t[4], name) && !answers_to(t[5], name)
            && !answers_to(t[6], name));
    }
}

/// The first command from here on that goes by the name, or the end of the table.
spec fn first_answering(t: Seq<CommandModel>, name: Seq<char>, from: int) -> int
    decreases t.len() - from,
{
    if from >= t.len() || from < 0 {
        t.len() as int
    } else if answers_to(t[from], name) {
        from
    } else {
        first_answering(t, name, from + 1)
    }
}

proof fn lemma_found(t: Seq<CommandModel>, name: Seq<char>, from: int)
    requires
        0 <= from <= t.len(),
    ensures
        ({
            let i = first_answering(t, name, from);
            &&& from <= i <= t.len()
            &&& i < t.len() ==> answers_to(t[i], name) && find_command(t.skip(from), name) == Some(
                t[i],
            )
            &&& i == t.len() ==> find_command(t.skip(from), name) is None
            &&& forall|k: int| from <= k < i ==> !answers_to(#[trigger] t[k], name)
        }),
    decreases t.len() - from,
{
    if from < t.len() {
        assert(t.skip(from)[0] == t[from]);
        assert(t.skip(from).drop_first() =~= t.skip(from + 1));
        lemma_found(t, name, from + 1);
    }
}

/// A slash and a name, with nothing behind it, is the command of that name without
/// arguments; a name that no command goes by is reported on its own.
pub proof fn a_name_alone_is_a_command(name: Seq<char>)
    requires
        name.len() > 0,
        name[0] != '/',
        forall|i: int| 0 <= i < name.len() ==> !white_space(#[trigger] name[i]),
    ensures
        match parsed(seq!['/'] + name) {
            Some(ParsedModel::Known(c, args)) => command_called(name) == Some(c.name)
                && args.len() == 0,
            Some(ParsedModel::Unknown(word)) => command_called(name) is None && word == name,
            None => false,
        },
{
    let input = seq!['/'] + name;
    let nothing = Seq::<char>::empty();
    assert(input.last() == name[name.len() - 1]);
    trimming_takes_white_space_off(nothing, input, nothing);
    assert(nothing + input + nothing =~= input);
    assert(input.skip(1) =~= name);
    crate::text::lemma_word_len(name, name.len() as int);
    assert(name.take(name.len() as int) =~= name);
    assert(without_leading(name, '/') == name);
    commands_go_by_their_names(name);
}

/// A slash, a name, white space and something behind it is the command of that name
/// with that for its arguments, without the white space around them.
pub proof fn what_follows_the_name_is_the_argument(
    name: Seq<char>,
    gap: char,
    before: Seq<char>,
    args: Seq<char>,
    after: Seq<char>,
)
    requires
        name.len() > 0,
        name[0] != '/',
        forall|i: int| 0 <= i < name.len() ==> !white_space(#[trigger] name[i]),
        white_space(gap),
        blank(before) && blank(after) && tight(args),
    ensures
        match parsed(seq!['/'] + name + seq![gap] + (before + args + after)) {
            Some(ParsedModel::Known(c, found)) => command_called(name) == Some(c.name) && found
                == args,
            Some(ParsedModel::Unknown(word)) => command_called(name) is None && word == name,
            None => false,
        },
{
    crate::commands::name_and_arguments_come_apart(name, gap, before + args + after);
    trimming_takes_white_space_off(before, args, after);
    assert(without_leading(name, '/') == name);
    commands_go_by_their_names(name);
}

/// What does not begin with a slash, white space aside, is a message, and so is a slash
/// alone.
pub proof fn messages_are_not_commands(before: Seq<char>, text: Seq<char>, after: Seq<char>)
    requires
        blank(before) && blank(after) && tight(text),
        text.len() > 0 ==> text[0] != '/' || text.len() == 1,
    ensures
        parsed(before + text + after) is None,
{
    trimming_takes_white_space_off(before, text, after);
}

/// Whether a command's name, or another name for it, begins like this.
pub open spec fn begins_like(c: CommandModel, prefix: Seq<char>) -> bool {
    exists|name: Seq<char>| #[trigger]
        answers_to(c, name) && prefix.is_prefix_of(name)
}

proof fn lemma_begins_like(c: CommandModel, prefix: Seq<char>)
    ensures
        offered_for(c, prefix) <==> begins_like(c, prefix),
{
    if offered_for(c, prefix) {
        if prefix.is_prefix_of(c.name) {
            assert(answers_to(c, c.name));
        } else {
            let i = choose|i: int|
                0 <= i < c.aliases.len() && prefix.is_prefix_of(#[trigger] c.aliases[i]);
            assert(answers_to(c, c.aliases[i]));
        }
    }
    if begins_like(c, prefix) {
        let name = choose|name: Seq<char>| #[trigger]
            answers_to(c, name) && prefix.is_prefix_of(name);
        if c.name != name {
            let i = choose|i: int| 0 <= i < c.aliases.len() && c.aliases[i] == name;
            assert(prefix.is_prefix_of(c.aliases[i]));
        }
    }
}

/// The popup is open while the input is a slash and the beginning of a name that a
/// command goes by; it lists those commands, all of them and in their order.
pub proof fn the_popup_lists_what_begins_like_it(
    prefix: Seq<char>,
    previous: Option<CompletionModel>,
    c: CommandModel,
)
    requires
        forall|i: int| 0 <= i < prefix.len() ==> !white_space(#[trigger] prefix[i]),
    ensures
        ({
            let popup = completion_for(seq!['/'] + prefix, previous);
            &&& popup is Some <==> exists|d: CommandModel|
                command_table().contains(d) && #[trigger] begins_like(d, prefix)
            &&& popup matches Some(p) ==> {
                &&& p.items.contains(c) <==> command_table().contains(c) && begins_like(c, prefix)
                &&& p.items == command_table().filter(|d: CommandModel| begins_like(d, prefix))
            }
        }),
{
    let input = seq!['/'] + prefix;
    assert(input.skip(1) =~= prefix);
    crate::text::lemma_word_len(prefix, prefix.len() as int);
    let f = |d: CommandModel| offered_for(d, prefix);
    let g = |d: CommandModel| begins_like(d, prefix);
    assert forall|d: CommandModel| #[trigger] f(d) == g(d) by {
        lemma_begins_like(d, prefix);
    }
    assert(f =~= g);
    let items = matching_commands(prefix);
    assert(items == command_table().filter(g));
    broadcast use vstd::seq_lib::group_filter_ensures;

    assert(items.contains(c) <==> command_table().contains(c) && begins_like(c, prefix)) by {
        if items.contains(c) {
            command_table().lemma_filter_contains_rev(g, c);
            let i = choose|i: int| 0 <= i < items.len() && items[i] == c;
            assert(g(items[i]));
        }
        if command_table().contains(c) && begins_like(c, prefix) {
            let i = choose|i: int| 0 <= i < command_table().len() && command_table()[i] == c;
            assert(g(command_table()[i]));
            assert(items.contains(command_table()[i]));
        }
    }
    if items.len() > 0 {
        let d = items[0];
        assert(items.contains(d));
        command_table().lemma_filter_contains_rev(g, d);
        assert(g(d));
    }
    if exists|d: CommandModel| command_table().contains(d) && #[trigger] begins_like(d, prefix) {
        let d = choose|d: CommandModel|
            command_table().contains(d) && #[trigger] begins_like(d, prefix);
        let i = choose|i: int| 0 <= i < command_table().len() && command_table()[i] == d;
        assert(g(command_table()[i]));
        assert(items.contains(command_table()[i]));
    }
}

/// The popup is closed while the input does not begin with a slash, and once there is
/// white space behind the slash.
pub proof fn the_popup_closes_behind_the_name(
    input: Seq<char>,
    previous: Option<CompletionModel>,
    i: int,
)
    requires
        input.len() == 0 || input[0] != '/' || (0 < i < input.len() && white_space(input[i])),
    ensures
        completion_for(input, previous) is None,
{
    if input.len() > 0 && input[0] == '/' {
        let rest = input.skip(1);
        assert(rest[i - 1] == input[i]);
        lemma_word_ends(rest, i - 1);
    }
}

proof fn lemma_word_ends(s: Seq<char>, n: int)
    requires
        0 <= n < s.len(),
        white_space(s[n]),
    ensures
        word_len(s) <= n,
    decreases n,
{
    if !white_space(s[0]) {
        lemma_word_ends(s.drop_first(), n - 1);
    }
}

/// The highlight of the popup stays on the command that it was on, while that is still
/// listed; otherwise it goes to the first.
pub proof fn the_highlight_stays_on_its_command(input: Seq<char>, previous: CompletionModel)
    requires
        previous.selected < previous.items.len(),
    ensures
        completion_for(input, Some(previous)) matches Some(p) ==> {
            let name = previous.items[previous.selected as int].name;
            if exists|i: int| 0 <= i < p.items.len() && #[trigger] p.items[i].name == name {
                p.selected < p.items.len() && p.items[p.selected as int].name == name
            } else {
                p.selected == 0
            }
        },
        completion_for(input, None) matches Some(p) ==> p.selected == 0,
{
    if let Some(p) = completion_for(input, Some(previous)) {
        lemma_entries_before(p.items, previous.items[previous.selected as int].name);
    }
}

proof fn lemma_entries_before(items: Seq<CommandModel>, name: Seq<char>)
    ensures
        ({
            let n = entries_before(items, name) as int;
            &&& n <= items.len()
            &&& n < items.len() ==> items[n].name == name
            &&& n == items.len() ==> forall|i: int|
                0 <= i < items.len() ==> #[trigger] items[i].name != name
        }),
    decreases items.len(),
{
    if items.len() > 0 && items[0].name != name {
        let rest = items.drop_first();
        lemma_entries_before(rest, name);
        assert forall|i: int| 1 <= i < items.len() implies #[trigger] items[i] == rest[i - 1] by {}
    }
}

} // verus!
