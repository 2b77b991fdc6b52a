//! A line-oriented runner for working inside a directory.

pub mod laws;
pub mod output_laws;
pub mod run;
pub mod run_laws;
pub mod start_laws;
pub mod ui;

use crate::app::model::picked;
use crate::app::pick_kind;
use crate::event::{
    PermissionOptionModel, PermissionOptionView, PermissionOutcome, PermissionOutcomeModel,
};
use crate::text;
use crate::text::{joined, trimmed, trimmed_end};
use vstd::prelude::*;

verus! {

pub const EXIT_OK: i32 = 0;

pub const EXIT_ERROR: i32 = 1;

pub const EXIT_INTERRUPTED: i32 = 2;

/// What the command line asked for.
pub struct RunArgs {
    pub prompt: Vec<String>,
    pub cwd: Option<String>,
    pub model: Option<String>,
    pub yes: bool,
    pub quiet: bool,
    pub json: bool,
    pub think: bool,
}

impl Default for RunArgs {
    /// Nothing asked for.
    fn default() -> (a: Self)
        ensures
            a.prompt.deep_view() == Seq::<Seq<char>>::empty(),
            a.cwd is None,
            a.model is None,
            !a.yes && !a.quiet && !a.json && !a.think,
    {
        let a = RunArgs {
            prompt: Vec::new(),
            cwd: None,
            model: None,
            yes: false,
            quiet: false,
            json: false,
            think: false,
        };
        assert(a.prompt.deep_view() =~= Seq::<Seq<char>>::empty());
        a
    }
}

/// The prompt made of the arguments and of piped text.
pub open spec fn composed(inline: Seq<char>, piped: Option<Seq<char>>) -> Option<Seq<char>> {
    let inline = trimmed(inline);
    match piped {
        None => if inline.len() == 0 {
            None
        } else {
            Some(inline)
        },
        Some(piped) => if inline.len() == 0 {
            Some(piped)
        } else {
            Some(inline + "\n\n"@ + piped)
        },
    }
}

/// A prompt given as arguments, piped in, or both (arguments first, piped
/// text as its context). None means there is nothing to run yet.
pub fn compose_prompt(inline: &str, piped: Option<String>) -> (r: Option<String>)
    ensures
        r.deep_view() == composed(inline@, piped.deep_view()),
{
    let inline = text::trim(inline);
    match piped {
        None => {
            if inline.as_str().is_empty() {
                None
            } else {
                Some(inline)
            }
        },
        Some(piped) => {
            if inline.as_str().is_empty() {
                Some(piped)
            } else {
                Some(text::cat3(inline.as_str(), "\n\n", piped.as_str()))
            }
        },
    }
}

/// What piped input amounts to: its text, if it is more than white space.
pub fn piped_text(input: &str) -> (r: Option<String>)
    ensures
        r.deep_view() == if trimmed(input@).len() == 0 {
            None
        } else {
            Some(trimmed(input@))
        },
{
    let input = text::trim(input);
    if input.as_str().is_empty() {
        None
    } else {
        Some(input)
    }
}

/// What reading a line amounts to: nothing at the end of the input, else the
/// line without the white space at its end.
pub fn typed_line(bytes_read: usize, line: &str) -> (r: Option<String>)
    ensures
        r.deep_view() == if bytes_read == 0 {
            None
        } else {
            Some(trimmed_end(line@))
        },
{
    if bytes_read == 0 {
        None
    } else {
        Some(text::trim_end(line))
    }
}

/// The prompt to begin with. None asks for an interactive session, which takes a
/// terminal.
pub fn first_prompt(
    prompt: &Vec<String>,
    piped: Option<String>,
    stdin_is_terminal: bool,
) -> (r: Result<Option<String>, String>)
    ensures
        ({
            let first = composed(joined(prompt.deep_view(), " "@), piped.deep_view());
            match r {
                Ok(p) => p.deep_view() == first && (first is Some || stdin_is_terminal),
                Err(e) => first is None && !stdin_is_terminal && e@
                    == "no prompt given (pass one as an argument, or pipe it in)"@,
            }
        }),
{
    let first = compose_prompt(text::join(prompt, " ").as_str(), piped);
    if first.is_none() && !stdin_is_terminal {
        return Err("no prompt given (pass one as an argument, or pipe it in)".to_string());
    }
    Ok(first)
}

/// The working directory has to be a directory.
pub fn check_directory(shown: &str, is_dir: bool) -> (r: Result<(), String>)
    ensures
        r is Ok <==> is_dir,
        r matches Err(e) ==> e@ == shown@ + " is not a directory"@,
{
    if is_dir {
        Ok(())
    } else {
        Err(text::cat2(shown, " is not a directory"))
    }
}

/// Whether the run can go on with this model, given the account's models or why
/// they could not be listed; then there may be something to mention.
pub fn check_model(model: &str, listed: &Result<Vec<String>, String>) -> (r: Result<
    Option<String>,
    String,
>)
    ensures
        match listed {
            Ok(models) => if models.deep_view().contains(model@) {
                r is Ok && r->Ok_0 is None
            } else {
                r is Err && r->Err_0@ == "model "@ + model@
                    + " is not available on this account.\navailable: "@ + joined(
                    models.deep_view(),
                    ", "@,
                )
            },
            Err(e) => r is Ok && r->Ok_0 is Some && r->Ok_0->0@
                == "could not verify the model list ("@ + e@ + ")"@,
        },
{
    match listed {
        Ok(models) => {
            if text::position(models, model).is_some() {
                return Ok(None);
            }
            let head = text::cat3(
                "model ",
                model,
                " is not available on this account.\navailable: ",
            );
            let names = text::join(models, ", ");
            Err(text::cat2(head.as_str(), names.as_str()))
        },
        Err(e) => Ok(
            Some(text::cat3("could not verify the model list (", e.as_str(), ")")),
        ),
    }
}

/// Whether an answer allows this once: `y`, or the default that Enter takes.
pub open spec fn allows_once(answer: Seq<char>) -> bool {
    let answer = trimmed(answer);
    answer == "y"@ || answer == "Y"@ || answer.len() == 0
}

/// Whether an answer allows this for good.
pub open spec fn allows_always(answer: Seq<char>) -> bool {
    let answer = trimmed(answer);
    answer == "a"@ || answer == "A"@
}

/// The option that an answer chooses.
pub open spec fn chosen(answer: Seq<char>, options: Seq<PermissionOptionModel>) -> Option<
    Seq<char>,
> {
    if allows_once(answer) {
        picked(options, "allow_once"@)
    } else if allows_always(answer) {
        match picked(options, "allow_always"@) {
            Some(id) => Some(id),
            None => picked(options, "allow_once"@),
        }
    } else {
        picked(options, "reject_once"@)
    }
}

/// Map a typed answer onto one of the options the agent offered. Enter takes
/// the default shown in the prompt; anything unrecognised refuses.
pub fn choose_permission(answer: &str, options: &[PermissionOptionView]) -> (r: Option<String>)
    ensures
        r.deep_view() == chosen(answer@, options.deep_view()),
{
    let trimmed_answer = text::trim(answer);
    let answer = trimmed_answer.as_str();
    if text::same(answer, "y") || text::same(answer, "Y") || answer.is_empty() {
        pick_kind(options, "allow_once")
    } else if text::same(answer, "a") || text::same(answer, "A") {
        match pick_kind(options, "allow_always") {
            Some(id) => Some(id),
            None => pick_kind(options, "allow_once"),
        }
    } else {
        pick_kind(options, "reject_once")
    }
}

/// How a question is refused.
pub open spec fn refusal(options: Seq<PermissionOptionModel>) -> PermissionOutcomeModel {
    match picked(options, "reject_once"@) {
        Some(option_id) => PermissionOutcomeModel::Selected { option_id },
        None => PermissionOutcomeModel::Cancelled,
    }
}

/// The option that was picked, or else the first.
pub open spec fn or_first(
    pick: Option<Seq<char>>,
    options: Seq<PermissionOptionModel>,
) -> PermissionOutcomeModel {
    match pick {
        Some(option_id) => PermissionOutcomeModel::Selected { option_id },
        None => if options.len() > 0 {
            PermissionOutcomeModel::Selected { option_id: options[0].id }
        } else {
            PermissionOutcomeModel::Cancelled
        },
    }
}

/// How a question is answered: an answer that allows takes the first option where
/// the one it means is not offered; any other refuses.
pub open spec fn outcome_of(
    answer: Seq<char>,
    options: Seq<PermissionOptionModel>,
) -> PermissionOutcomeModel {
    if allows_once(answer) || allows_always(answer) {
        or_first(chosen(answer, options), options)
    } else {
        refusal(options)
    }
}

/// The question is refused.
pub fn refuse(options: &[PermissionOptionView]) -> (r: PermissionOutcome)
    ensures
        r.deep_view() == refusal(options.deep_view()),
{
    match pick_kind(options, "reject_once") {
        Some(option_id) => PermissionOutcome::Selected { option_id },
        None => PermissionOutcome::Cancelled,
    }
}

fn pick_or_first(pick: Option<String>, options: &[PermissionOptionView]) -> (r: PermissionOutcome)
    ensures
        r.deep_view() == or_first(pick.deep_view(), options.deep_view()),
{
    match pick {
        Some(option_id) => PermissionOutcome::Selected { option_id },
        None => {
            if options.len() > 0 {
                assert(options.deep_view()[0] == options[0].deep_view());
                PermissionOutcome::Selected { option_id: options[0].id.clone() }
            } else {
                PermissionOutcome::Cancelled
            }
        },
    }
}

/// The question is allowed without asking.
pub fn permit(options: &[PermissionOptionView]) -> (r: PermissionOutcome)
    ensures
        r.deep_view() == or_first(picked(options.deep_view(), "allow_once"@), options.deep_view()),
{
    pick_or_first(pick_kind(options, "allow_once"), options)
}

/// The question gets a typed answer.
pub fn answer_permission(answer: &str, options: &[PermissionOptionView]) -> (r: PermissionOutcome)
    ensures
        r.deep_view() == outcome_of(answer@, options.deep_view()),
{
    let typed = text::trim(answer);
    let word = typed.as_str();
    if text::same(word, "y") || text::same(word, "Y") || word.is_empty() || text::same(word, "a")
        || text::same(word, "A") {
        pick_or_first(choose_permission(answer, options), options)
    } else {
        refuse(options)
    }
}

} // verus!
