//! What the run makes of its arguments and of what it reads.

use crate::cli::run_laws::{is_allowed, is_refused, lemma_says, says, the_first_of_a_kind_is_picked};
use crate::cli::{
    check_directory, check_model, first_prompt, permit, piped_text, refuse, typed_line,
};
use crate::driver::Oneshot;
use crate::event::{PermissionOptionView, PermissionOutcome};
use crate::text::{blank, joined, white_space};
use crate::text_laws::{tight, trimming_takes_white_space_off, trimming_the_end_keeps_the_start};
use vstd::prelude::*;

verus! {

/// A line that is typed keeps its start and loses the white space at its end; the end of
/// the input is no line.
pub proof fn typed_lines_keep_their_start(
    bytes: usize,
    line: &str,
    core: Seq<char>,
    after: Seq<char>,
    read: Option<String>,
)
    requires
        call_ensures(typed_line, (bytes, line), read),
        line@ == core + after,
        blank(after),
        core.len() > 0 ==> !white_space(core.last()),
    ensures
        bytes == 0 ==> read is None,
        bytes > 0 ==> read is Some && read->0@ == core,
{
    trimming_the_end_keeps_the_start(core, after);
}

/// Text that is piped in counts without the white space around it, and white space alone
/// does not count.
pub proof fn piped_text_is_trimmed(
    input: &str,
    before: Seq<char>,
    core: Seq<char>,
    after: Seq<char>,
    piped: Option<String>,
)
    requires
        call_ensures(piped_text, (input,), piped),
        input@ == before + core + after,
        blank(before) && blank(after) && tight(core),
    ensures
        core.len() == 0 ==> piped is None,
        core.len() > 0 ==> piped is Some && piped->0@ == core,
{
    trimming_takes_white_space_off(before, core, after);
}

/// The prompt of a run is made of its arguments, with spaces between them, and of piped
/// text behind an empty line. Without either, a terminal makes it an interactive session,
/// and it is an error otherwise.
pub proof fn runs_take_their_prompt_from_both(
    words: &Vec<String>,
    piped: Option<String>,
    terminal: bool,
    before: Seq<char>,
    text: Seq<char>,
    after: Seq<char>,
    prompt: Result<Option<String>, String>,
)
    requires
        call_ensures(first_prompt, (words, piped, terminal), prompt),
        joined(words.deep_view(), seq![' ']) == before + text + after,
        blank(before) && blank(after) && tight(text),
    ensures
        text.len() > 0 && piped is None ==> prompt is Ok && prompt->Ok_0 is Some
            && prompt->Ok_0->0@ == text,
        text.len() > 0 && piped is Some ==> prompt is Ok && prompt->Ok_0 is Some
            && prompt->Ok_0->0@ == text + seq!['\n', '\n'] + piped->0@,
        text.len() == 0 && piped is Some ==> prompt is Ok && prompt->Ok_0 is Some
            && prompt->Ok_0->0@ == piped->0@,
        text.len() == 0 && piped is None && terminal ==> prompt is Ok && prompt->Ok_0 is None,
        text.len() == 0 && piped is None && !terminal ==> prompt is Err && prompt->Err_0@
            == "no prompt given (pass one as an argument, or pipe it in)"@,
{
    reveal_strlit(" ");
    assert(" "@ =~= seq![' ']);
    reveal_strlit("\n\n");
    assert("\n\n"@ =~= seq!['\n', '\n']);
    trimming_takes_white_space_off(before, text, after);
}

/// A run goes on with a model that the account lists; it does not with one that the
/// account does not list, and names those that it does. Where the list cannot be had, the
/// run goes on with a remark.
pub proof fn models_are_checked_up_front(
    model: &str,
    listed: &Result<Vec<String>, String>,
    i: int,
    checked: Result<Option<String>, String>,
)
    requires
        call_ensures(check_model, (model, listed), checked),
    ensures
        match *listed {
            Ok(models) => {
                &&& 0 <= i < models.deep_view().len() && models.deep_view()[i] == model@
                    ==> checked is Ok && checked->Ok_0 is None
                &&& (forall|k: int|
                    0 <= k < models.deep_view().len() ==> #[trigger] models.deep_view()[k]
                        != model@) ==> checked is Err && checked->Err_0@ == "model "@ + model@
                    + " is not available on this account.\navailable: "@ + joined(
                    models.deep_view(),
                    seq![',', ' '],
                )
            },
            Err(reason) => checked is Ok && checked->Ok_0 is Some && checked->Ok_0->0@
                == "could not verify the model list ("@ + reason@ + ")"@,
        },
{
    reveal_strlit(", ");
    assert(", "@ =~= seq![',', ' ']);
}

/// A run works in a directory, and in nothing else.
pub proof fn runs_work_in_a_directory(shown: &str, is_dir: bool, checked: Result<(), String>)
    requires
        call_ensures(check_directory, (shown, is_dir), checked),
    ensures
        is_dir ==> checked is Ok,
        !is_dir ==> checked is Err && checked->Err_0@ == shown@ + " is not a directory"@,
{
}

/// What permits a question takes the first option that allows once, or else the first of
/// all; what refuses it takes the first that rejects once, or else cancels.
pub proof fn permitting_and_refusing_are_opposites(
    options: &[PermissionOptionView],
    permitted: PermissionOutcome,
    refused: PermissionOutcome,
)
    requires
        call_ensures(permit, (options,), permitted),
        call_ensures(refuse, (options,), refused),
    ensures
        is_allowed(permitted.deep_view(), options.deep_view()),
        is_refused(refused.deep_view(), options.deep_view()),
{
    the_first_of_a_kind_is_picked(options.deep_view(), "allow_once"@);
    the_first_of_a_kind_is_picked(options.deep_view(), "reject_once"@);
}

/// To the question of a single turn only a `y` says yes; everything else, and nothing at
/// all, says no.
pub proof fn only_a_y_says_yes(
    line: &str,
    options: &[PermissionOptionView],
    outcome: PermissionOutcome,
)
    requires
        call_ensures(Oneshot::answer, (line, options), outcome),
    ensures
        says(line@, "y"@) || says(line@, "Y"@) ==> is_allowed(
            outcome.deep_view(),
            options.deep_view(),
        ),
        !says(line@, "y"@) && !says(line@, "Y"@) ==> is_refused(
            outcome.deep_view(),
            options.deep_view(),
        ),
{
    reveal_strlit("y");
    reveal_strlit("Y");
    lemma_says(line@, "y"@);
    lemma_says(line@, "Y"@);
    the_first_of_a_kind_is_picked(options.deep_view(), "allow_once"@);
    the_first_of_a_kind_is_picked(options.deep_view(), "reject_once"@);
}

} // verus!
