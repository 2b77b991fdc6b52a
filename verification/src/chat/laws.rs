//! What holds of requests and of streamed replies.

use crate::chat::client::{
    chat_request, failure, is_chat_model, non_chat_markers, payload, reason_after, selectable,
    sse_read, texts_of, ChatClient, SseStepModel,
};
use crate::chat::types::{
    assistant_message, user_message, ChatMessage, ChatMessageModel, ChatRequest, ChoiceModel,
};
use crate::config::DEFAULT_MODEL;
use crate::text::{blank, has_part, white_space};
use crate::text_laws::{lemma_line_end, tight, trimming_takes_white_space_off};
use vstd::prelude::*;

verus! {

/// The texts one after the other.
pub open spec fn run_together(texts: Seq<Seq<char>>) -> Seq<char>
    decreases texts.len(),
{
    if texts.len() == 0 {
        Seq::empty()
    } else {
        run_together(texts.drop_last()) + texts.last()
    }
}

/// What the choices of a piece say, one after the other; a choice without content says
/// nothing.
pub open spec fn content_of(choices: Seq<ChoiceModel>) -> Seq<char>
    decreases choices.len(),
{
    if choices.len() == 0 {
        Seq::empty()
    } else {
        content_of(choices.drop_last()) + match choices.last().content {
            Some(text) => text,
            None => Seq::empty(),
        }
    }
}

/// Nothing of a reply is lost and nothing is added: the texts of a piece, one after the
/// other, are what its choices say, white space and all. None of the texts is empty.
pub proof fn nothing_of_the_reply_is_lost(choices: Seq<ChoiceModel>)
    ensures
        run_together(texts_of(choices)) == content_of(choices),
        forall|i: int| 0 <= i < texts_of(choices).len() ==> (#[trigger] texts_of(choices)[i]).len()
            > 0,
    decreases choices.len(),
{
    if choices.len() > 0 {
        let earlier = texts_of(choices.drop_last());
        nothing_of_the_reply_is_lost(choices.drop_last());
        if let Some(text) = choices.last().content {
            assert(earlier.push(text).drop_last() =~= earlier);
            if text.len() == 0 {
                assert(content_of(choices.drop_last()) + text =~= content_of(choices.drop_last()));
            } else {
                assert forall|i: int| 0 <= i < texts_of(choices).len() implies (
                #[trigger] texts_of(choices)[i]).len() > 0 by {
                    if i < earlier.len() {
                        assert(texts_of(choices)[i] == earlier[i]);
                    }
                }
            }
        } else {
            assert(content_of(choices.drop_last()) + Seq::<char>::empty() =~= content_of(
                choices.drop_last(),
            ));
        }
    }
}

/// Each text of a piece is the whole content of one of its choices, in their order: the
/// texts of two pieces in a row are those of the first and then those of the second.
pub proof fn texts_keep_their_order(a: Seq<ChoiceModel>, b: Seq<ChoiceModel>)
    ensures
        texts_of(a + b) == texts_of(a) + texts_of(b),
    decreases b.len(),
{
    if b.len() > 0 {
        texts_keep_their_order(a, b.drop_last());
        assert((a + b).drop_last() =~= a + b.drop_last());
        assert(texts_of(a + b) =~= texts_of(a) + texts_of(b));
    } else {
        assert(a + b =~= a);
        assert(texts_of(a) + texts_of(b) =~= texts_of(a));
    }
}

/// A choice with content that is not empty is one text.
pub proof fn a_choice_is_one_text(choice: ChoiceModel)
    ensures
        texts_of(seq![choice]) == match choice.content {
            Some(text) => if text.len() > 0 {
                seq![text]
            } else {
                Seq::empty()
            },
            None => Seq::empty(),
        },
{
    assert(seq![choice].drop_last() =~= Seq::empty());
    assert(texts_of(seq![choice].drop_last()) =~= Seq::empty());
    if let Some(text) = choice.content {
        assert(Seq::<Seq<char>>::empty().push(text) =~= seq![text]);
    }
}

/// The reason that a reply ended for is the last one that was given.
pub proof fn the_last_reason_counts(
    reason: Option<Seq<char>>,
    choices: Seq<ChoiceModel>,
    i: int,
)
    ensures
        (forall|k: int| 0 <= k < choices.len() ==> (#[trigger] choices[k]).finish_reason is None)
            ==> reason_after(reason, choices) == reason,
        0 <= i < choices.len() && choices[i].finish_reason is Some && (forall|k: int|
            i < k < choices.len() ==> (#[trigger] choices[k]).finish_reason is None)
            ==> reason_after(reason, choices) == choices[i].finish_reason,
    decreases choices.len(),
{
    if choices.len() > 0 {
        let fewer = choices.drop_last();
        the_last_reason_counts(reason, fewer, i);
        assert forall|k: int| 0 <= k < fewer.len() implies #[trigger] fewer[k] == choices[k] by {}
        assert(choices.last() == choices[choices.len() - 1]);
    }
}

proof fn lemma_first_line_read(l: Seq<char>, rest: Seq<char>)
    requires
        !l.contains('\n'),
    ensures
        ({
            let buf = l + seq!['\n'] + rest;
            match payload(l + seq!['\n']) {
                None => sse_read(buf) == sse_read(rest),
                Some(data) => sse_read(buf).rest == rest && sse_read(buf).step == if data
                    == "[DONE]"@ {
                    SseStepModel::Done
                } else {
                    SseStepModel::Data(data)
                },
            }
        }),
{
    let buf = l + seq!['\n'] + rest;
    let n = l.len() as int;
    assert forall|k: int| 0 <= k < n implies buf[k] != '\n' by {
        assert(l.contains(l[k]));
    }
    lemma_line_end(buf, n);
    assert(buf.take(n + 1) =~= l + seq!['\n']);
    assert(buf.skip(n + 1) =~= rest);
}

/// A line that carries data is read as soon as it is complete: the data without the
/// white space around it, or the end of the reply. What follows the line is left for
/// later.
pub proof fn data_lines_are_read(
    indent: Seq<char>,
    gap: Seq<char>,
    data: Seq<char>,
    tail: Seq<char>,
    rest: Seq<char>,
)
    requires
        blank(indent) && blank(gap) && blank(tail),
        tight(data),
        !indent.contains('\n') && !gap.contains('\n') && !data.contains('\n') && !tail.contains(
            '\n',
        ),
    ensures
        ({
            let read = sse_read(indent + "data:"@ + gap + data + tail + seq!['\n'] + rest);
            &&& read.rest == rest
            &&& read.step == if data == "[DONE]"@ {
                SseStepModel::Done
            } else {
                SseStepModel::Data(data)
            }
        }),
{
    reveal_strlit("data:");
    let mark = "data:"@;
    assert(mark.len() == 5 && mark[0] == 'd' && mark[1] == 'a' && mark[2] == 't' && mark[3] == 'a'
        && mark[4] == ':');
    let l = indent + mark + gap + data + tail;
    assert forall|c: char| l.contains(c) implies c != '\n' by {
        let k = choose|k: int| 0 <= k < l.len() && l[k] == c;
        let a = indent.len() as int;
        if k < a {
            assert(indent.contains(indent[k]));
        } else if k < a + 5 {
            assert(l[k] == mark[k - a]);
        } else if k < a + 5 + gap.len() {
            assert(gap.contains(gap[k - a - 5]));
            assert(l[k] == gap[k - a - 5]);
        } else if k < a + 5 + gap.len() + data.len() {
            assert(data.contains(data[k - a - 5 - gap.len()]));
            assert(l[k] == data[k - a - 5 - gap.len()]);
        } else {
            assert(tail.contains(tail[k - a - 5 - gap.len() - data.len()]));
            assert(l[k] == tail[k - a - 5 - gap.len() - data.len()]);
        }
    }
    lemma_first_line_read(l, rest);
    let end = tail + seq!['\n'];
    assert(blank(end)) by {
        assert forall|i: int| 0 <= i < end.len() implies white_space(#[trigger] end[i]) by {
            if i < tail.len() {
                assert(end[i] == tail[i]);
            }
        }
    }
    if data.len() > 0 {
        let core = mark + gap + data;
        assert(core.last() == data.last());
        trimming_takes_white_space_off(indent, core, end);
        assert(l + seq!['\n'] =~= indent + core + end);
        assert(core.take(5) =~= mark);
        assert(core.skip(5) =~= gap + data + Seq::<char>::empty());
        trimming_takes_white_space_off(gap, data, Seq::empty());
    } else {
        let behind = gap + end;
        assert(blank(behind)) by {
            assert forall|i: int| 0 <= i < behind.len() implies white_space(
                #[trigger] behind[i],
            ) by {
                if i < gap.len() {
                    assert(behind[i] == gap[i]);
                } else {
                    assert(behind[i] == end[i - gap.len()]);
                }
            }
        }
        trimming_takes_white_space_off(indent, mark, behind);
        assert(l + seq!['\n'] =~= indent + mark + behind);
        assert(mark.take(5) =~= mark);
        assert(mark.skip(5) =~= Seq::<char>::empty());
        let nothing = Seq::<char>::empty();
        trimming_takes_white_space_off(nothing, nothing, nothing);
        assert(nothing + nothing + nothing =~= nothing);
        assert(data =~= nothing);
    }
}

/// A line that does not carry data is passed over.
pub proof fn other_lines_are_passed_over(
    indent: Seq<char>,
    l: Seq<char>,
    tail: Seq<char>,
    rest: Seq<char>,
)
    requires
        blank(indent) && blank(tail),
        tight(l),
        !indent.contains('\n') && !l.contains('\n') && !tail.contains('\n'),
        !(l.len() >= 5 && l[0] == 'd' && l[1] == 'a' && l[2] == 't' && l[3] == 'a' && l[4] == ':'),
    ensures
        sse_read(indent + l + tail + seq!['\n'] + rest) == sse_read(rest),
{
    reveal_strlit("data:");
    let mark = "data:"@;
    assert(mark.len() == 5 && mark[0] == 'd' && mark[1] == 'a' && mark[2] == 't' && mark[3] == 'a'
        && mark[4] == ':');
    let whole = indent + l + tail;
    assert forall|c: char| whole.contains(c) implies c != '\n' by {
        let k = choose|k: int| 0 <= k < whole.len() && whole[k] == c;
        if k < indent.len() {
            assert(indent.contains(indent[k]));
        } else if k < indent.len() + l.len() {
            assert(l.contains(l[k - indent.len()]));
        } else {
            assert(tail.contains(tail[k - indent.len() - l.len()]));
        }
    }
    lemma_first_line_read(whole, rest);
    let end = tail + seq!['\n'];
    assert(blank(end)) by {
        assert forall|i: int| 0 <= i < end.len() implies white_space(#[trigger] end[i]) by {
            if i < tail.len() {
                assert(end[i] == tail[i]);
            }
        }
    }
    trimming_takes_white_space_off(indent, l, end);
    assert(whole + seq!['\n'] =~= indent + l + end);
    if mark.is_prefix_of(l) {
        assert(l.take(5)[0] == 'd' && l.take(5)[1] == 'a' && l.take(5)[2] == 't' && l.take(5)[3]
            == 'a' && l.take(5)[4] == ':');
    }
}

/// Of a line that is not complete nothing is read, and nothing is lost.
pub proof fn incomplete_lines_wait(buf: Seq<char>)
    requires
        !buf.contains('\n'),
    ensures
        sse_read(buf).step == SseStepModel::NeedMore,
        sse_read(buf).rest == buf,
{
    crate::text::lemma_line_len(buf);
    let n = crate::text::line_len(buf) as int;
    if n < buf.len() {
        assert(buf.contains(buf[n]));
    }
}

/// Whether the id of a model speaks of something else than chat.
pub open spec fn is_for_something_else(id: Seq<char>) -> bool {
    ||| has_part(id, "whisper"@)
    ||| has_part(id, "embed"@)
    ||| has_part(id, "rerank"@)
    ||| has_part(id, "transcription"@)
    ||| has_part(id, "text-to-speech"@)
    ||| has_part(id, "tts"@)
    ||| has_part(id, "image-generation"@)
}

proof fn lemma_chat_models(id: Seq<char>)
    ensures
        is_chat_model(id) <==> !is_for_something_else(id),
{
    let m = non_chat_markers();
    assert(m[0] == "whisper"@ && m[1] == "embed"@ && m[2] == "rerank"@ && m[3] == "transcription"@
        && m[4] == "text-to-speech"@ && m[5] == "tts"@ && m[6] == "image-generation"@);
    if !is_for_something_else(id) {
        assert forall|k: int| 0 <= k < m.len() implies !has_part(id, #[trigger] m[k]) by {
            assert(k == 0 || k == 1 || k == 2 || k == 3 || k == 4 || k == 5 || k == 6);
        }
    }
}

/// The models on offer are those listed that are for chat, in their order, but for the
/// default: that comes first.
pub proof fn models_for_chat_are_offered(ids: Seq<Seq<char>>)
    ensures
        ({
            let is_default = |id: Seq<char>| id == "glm-5-3"@;
            let is_other = |id: Seq<char>| id != "glm-5-3"@;
            let is_kept = |id: Seq<char>| id != "glm-5-3"@ && !is_for_something_else(id);
            let is_kept_default = |id: Seq<char>| id == "glm-5-3"@ && !is_for_something_else(id);
            &&& selectable(ids) == ids.filter(is_kept_default) + ids.filter(is_kept)
            &&& selectable(ids).filter(is_default) == ids.filter(is_kept_default)
            &&& selectable(ids).filter(is_other) == ids.filter(is_kept)
        }),
{
    let is_default = |id: Seq<char>| id == "glm-5-3"@;
    let is_other = |id: Seq<char>| id != "glm-5-3"@;
    let is_kept = |id: Seq<char>| id != "glm-5-3"@ && !is_for_something_else(id);
    let is_kept_default = |id: Seq<char>| id == "glm-5-3"@ && !is_for_something_else(id);
    let chat = |id: Seq<char>| is_chat_model(id);
    assert(DEFAULT_MODEL@ == "glm-5-3"@);
    assert((|id: Seq<char>| id == DEFAULT_MODEL@) =~= is_default);
    assert((|id: Seq<char>| id != DEFAULT_MODEL@) =~= is_other);
    lemma_filter_twice(ids, chat, is_default, is_kept_default);
    lemma_filter_twice(ids, chat, is_other, is_kept);
    let a = ids.filter(is_kept_default);
    let b = ids.filter(is_kept);
    lemma_filter_all(a, is_default, ids, is_kept_default, true);
    lemma_filter_all(b, is_default, ids, is_kept, false);
    lemma_filter_all(a, is_other, ids, is_kept_default, false);
    lemma_filter_all(b, is_other, ids, is_kept, true);
    Seq::filter_distributes_over_add(a, b, is_default);
    Seq::filter_distributes_over_add(a, b, is_other);
    assert(a + Seq::<Seq<char>>::empty() =~= a);
    assert(Seq::<Seq<char>>::empty() + b =~= b);
}

proof fn lemma_filter_twice(
    ids: Seq<Seq<char>>,
    f: spec_fn(Seq<char>) -> bool,
    g: spec_fn(Seq<char>) -> bool,
    h: spec_fn(Seq<char>) -> bool,
)
    requires
        f == (|id: Seq<char>| is_chat_model(id)),
        forall|id: Seq<char>| #[trigger] h(id) == (g(id) && !is_for_something_else(id)),
    ensures
        ids.filter(f).filter(g) == ids.filter(h),
    decreases ids.len(),
{
    reveal(Seq::filter);
    if ids.len() > 0 {
        let fewer = ids.drop_last();
        lemma_filter_twice(fewer, f, g, h);
        lemma_chat_models(ids.last());
        let kept = fewer.filter(f);
        assert(h(ids.last()) == (g(ids.last()) && f(ids.last())));
        if f(ids.last()) {
            assert(kept.push(ids.last()).drop_last() =~= kept);
        }
    }
}

proof fn lemma_filter_all(
    list: Seq<Seq<char>>,
    f: spec_fn(Seq<char>) -> bool,
    ids: Seq<Seq<char>>,
    g: spec_fn(Seq<char>) -> bool,
    all: bool,
)
    requires
        list == ids.filter(g),
        forall|id: Seq<char>| #[trigger] g(id) ==> f(id) == all,
    ensures
        list.filter(f) == if all {
            list
        } else {
            Seq::empty()
        },
    decreases ids.len(),
{
    reveal(Seq::filter);
    if ids.len() > 0 {
        let fewer = ids.drop_last();
        lemma_filter_all(fewer.filter(g), f, fewer, g, all);
        if g(ids.last()) {
            assert(list.drop_last() =~= fewer.filter(g));
            assert(list.last() == ids.last());
            assert(list =~= list.drop_last().push(list.last()));
        }
    }
}

/// A message says who wrote it, and what.
pub proof fn messages_say_who_wrote_them(content: Seq<char>)
    ensures
        user_message(content) == (ChatMessageModel { role: "user"@, content }),
        assistant_message(content) == (ChatMessageModel { role: "assistant"@, content }),
{
}

/// A request asks for a streamed reply of the model to all of the messages.
pub proof fn requests_carry_the_conversation(
    model: &str,
    messages: &[ChatMessage],
    request: ChatRequest,
)
    requires
        call_ensures(chat_request, (model, messages), request),
    ensures
        request.stream,
        request.model@ == model@,
        request.messages.deep_view() == messages.deep_view(),
{
}

/// Requests go to the two addresses of the API under its base.
pub proof fn the_api_has_two_addresses(client: &ChatClient, replies: String, models: String)
    requires
        call_ensures(ChatClient::completions_url, (client,), replies),
        call_ensures(ChatClient::models_url, (client,), models),
    ensures
        replies@ == client.base_url@ + "/v1/chat/completions"@,
        models@ == client.base_url@ + "/v1/models"@,
{
}

/// A request that is refused is reported with its status and the start of the answer.
pub proof fn refused_requests_are_reported(status: &str, body: &str, told: String)
    requires
        call_ensures(failure, (status, body), told),
    ensures
        body@.len() <= 400 ==> told@ == "chat completion failed ("@ + status@ + "): "@ + body@,
        body@.len() > 400 ==> told@ == "chat completion failed ("@ + status@ + "): "@
            + body@.take(400),
{
}

} // verus!
