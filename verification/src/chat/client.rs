//! Requests to the chat API, and the reading of a streamed reply.

use crate::chat::types::{
    copy_messages, ChatMessage, ChatRequest, ChoiceModel, StreamChoice, StreamChunk,
};
use crate::config::DEFAULT_MODEL;
use crate::text;
use crate::text::{at_most, has_part, lemma_line_len, line_len, trimmed};
use vstd::prelude::*;
use vstd::utf8::{decode_utf8, valid_utf8};

verus! {

/// Parts of the ids of models that are not for chat.
pub open spec fn non_chat_markers() -> Seq<Seq<char>> {
    seq![
        "whisper"@,
        "embed"@,
        "rerank"@,
        "transcription"@,
        "text-to-speech"@,
        "tts"@,
        "image-generation"@,
    ]
}

/// Whether a model is for chat.
pub open spec fn is_chat_model(id: Seq<char>) -> bool {
    forall|k: int| 0 <= k < non_chat_markers().len() ==> !has_part(id, #[trigger] non_chat_markers()[k])
}

/// Whether a model is for chat.
pub fn for_chat(id: &str) -> (r: bool)
    ensures
        r == is_chat_model(id@),
{
    let markers: Vec<&'static str> = vec![
        "whisper",
        "embed",
        "rerank",
        "transcription",
        "text-to-speech",
        "tts",
        "image-generation",
    ];
    let mut k: usize = 0;
    while k < markers.len()
        invariant
            k <= markers.len(),
            markers.deep_view() =~= non_chat_markers(),
            forall|j: int| 0 <= j < k ==> !has_part(id@, #[trigger] non_chat_markers()[j]),
        decreases markers.len() - k,
    {
        proof {
            assert(markers.deep_view()[k as int] == markers[k as int]@);
        }
        if text::contains(id, markers[k]) {
            return false;
        }
        k += 1;
    }
    true
}

/// The models to choose from: those for chat, the default in front.
pub open spec fn selectable(ids: Seq<Seq<char>>) -> Seq<Seq<char>> {
    let chat = ids.filter(|id: Seq<char>| is_chat_model(id));
    chat.filter(|id: Seq<char>| id == DEFAULT_MODEL@) + chat.filter(
        |id: Seq<char>| id != DEFAULT_MODEL@,
    )
}

/// Those of the ids that are for chat and are, or are not, the default, in order.
fn chosen(ids: &Vec<String>, default: bool) -> (r: Vec<String>)
    ensures
        r.deep_view() == ids.deep_view().filter(|id: Seq<char>| is_chat_model(id)).filter(
            |id: Seq<char>| (id == DEFAULT_MODEL@) == default,
        ),
{
    let mut r: Vec<String> = Vec::new();
    let mut i: usize = 0;
    let ghost all = ids.deep_view();
    let ghost f = |id: Seq<char>| is_chat_model(id);
    let ghost g = |id: Seq<char>| (id == DEFAULT_MODEL@) == default;
    proof {
        reveal(Seq::filter);
        assert(all.take(0).filter(f) =~= Seq::empty());
        assert(r.deep_view() =~= Seq::<Seq<char>>::empty().filter(g));
    }
    while i < ids.len()
        invariant
            i <= ids.len(),
            all == ids.deep_view(),
            f == (|id: Seq<char>| is_chat_model(id)),
            g == (|id: Seq<char>| (id == DEFAULT_MODEL@) == default),
            r.deep_view() == all.take(i as int).filter(f).filter(g),
        decreases ids.len() - i,
    {
        let ghost before = r.deep_view();
        let id = ids[i].as_str();
        proof {
            let upto = all.take(i + 1);
            assert(upto.drop_last() =~= all.take(i as int));
            assert(upto.last() == id@);
            reveal(Seq::filter);
            let kept = all.take(i as int).filter(f);
            assert(kept.push(id@).drop_last() =~= kept);
        }
        if for_chat(id) && text::same(id, DEFAULT_MODEL) == default {
            r.push(ids[i].clone());
            assert(r.deep_view() =~= before.push(id@));
        }
        i += 1;
    }
    proof {
        assert(all.take(i as int) =~= all);
    }
    r
}

/// The models to choose from: those for chat, the default in front.
pub fn selectable_models(ids: &Vec<String>) -> (r: Vec<String>)
    ensures
        r.deep_view() == selectable(ids.deep_view()),
{
    let first = chosen(ids, true);
    let mut rest = chosen(ids, false);
    let mut r = first;
    let ghost chat = ids.deep_view().filter(|id: Seq<char>| is_chat_model(id));
    proof {
        assert((|id: Seq<char>| (id == DEFAULT_MODEL@) == true) =~= (|id: Seq<char>|
            id == DEFAULT_MODEL@));
        assert((|id: Seq<char>| (id == DEFAULT_MODEL@) == false) =~= (|id: Seq<char>|
            id != DEFAULT_MODEL@));
    }
    let ghost tail = rest.deep_view();
    let ghost head = r.deep_view();
    r.append(&mut rest);
    assert(r.deep_view() =~= head + tail);
    r
}

/// Every model on offer is one of those listed, is for chat, and stands behind
/// the default if that is on offer.
pub proof fn the_default_model_comes_first(ids: Seq<Seq<char>>)
    ensures
        forall|i: int|
            0 <= i < selectable(ids).len() ==> is_chat_model(#[trigger] selectable(ids)[i])
                && ids.contains(selectable(ids)[i]),
        ids.contains(DEFAULT_MODEL@) && is_chat_model(DEFAULT_MODEL@) ==> selectable(ids).len() > 0
            && selectable(ids)[0] == DEFAULT_MODEL@,
{
    let f = |id: Seq<char>| is_chat_model(id);
    let g = |id: Seq<char>| id == DEFAULT_MODEL@;
    let h = |id: Seq<char>| id != DEFAULT_MODEL@;
    let chat = ids.filter(f);
    let front = chat.filter(g);
    let back = chat.filter(h);
    broadcast use vstd::seq_lib::group_filter_ensures;

    assert forall|i: int| 0 <= i < selectable(ids).len() implies is_chat_model(
        #[trigger] selectable(ids)[i],
    ) && ids.contains(selectable(ids)[i]) by {
        let id = selectable(ids)[i];
        if i < front.len() {
            assert(front[i] == id);
            chat.lemma_filter_contains_rev(g, id);
        } else {
            assert(back[i - front.len()] == id);
            chat.lemma_filter_contains_rev(h, id);
        }
        let k = choose|k: int| 0 <= k < chat.len() && chat[k] == id;
        assert(f(chat[k]));
        ids.lemma_filter_contains_rev(f, id);
    }
    if ids.contains(DEFAULT_MODEL@) && is_chat_model(DEFAULT_MODEL@) {
        let k = choose|k: int| 0 <= k < ids.len() && ids[k] == DEFAULT_MODEL@;
        assert(f(ids[k]));
        assert(chat.contains(ids[k]));
        let m = choose|m: int| 0 <= m < chat.len() && chat[m] == DEFAULT_MODEL@;
        assert(g(chat[m]));
        assert(front.contains(chat[m]));
        assert(g(front[0]));
    }
}

/// The text that `String::from_utf8_lossy` makes of the bytes.
pub uninterp spec fn lossy_text(bytes: Seq<u8>) -> Seq<char>;

/// `String::from_utf8_lossy`: the text, named by [`lossy_text`]. Of valid UTF-8 it
/// is the text that the bytes encode.
#[verifier::external_body]
fn decode(bytes: &[u8]) -> (r: String)
    ensures
        r@ == lossy_text(bytes@),
        valid_utf8(bytes@) ==> r@ == decode_utf8(bytes@),
{
    String::from_utf8_lossy(bytes).into_owned()
}

/// What a line of the stream carries, if it is a data line.
pub open spec fn payload(l: Seq<char>) -> Option<Seq<char>> {
    let l = trimmed(l);
    if "data:"@.is_prefix_of(l) {
        Some(trimmed(l.skip("data:"@.len() as int)))
    } else {
        None
    }
}

/// What the next complete line of interest says.
pub enum SseStep {
    /// There is no more complete line.
    NeedMore,
    /// A piece of the reply, still encoded.
    Data(String),
    /// The reply is complete.
    Done,
}

pub enum SseStepModel {
    NeedMore,
    Data(Seq<char>),
    Done,
}

impl DeepView for SseStep {
    type V = SseStepModel;

    open spec fn deep_view(&self) -> SseStepModel {
        match self {
            SseStep::NeedMore => SseStepModel::NeedMore,
            SseStep::Data(data) => SseStepModel::Data(data@),
            SseStep::Done => SseStepModel::Done,
        }
    }
}

/// What the next complete line of interest says, and what is left to read.
pub struct SseRead {
    pub step: SseStepModel,
    pub rest: Seq<char>,
}

/// Reads on to the next data line. Only complete lines are looked at.
pub open spec fn sse_read(buf: Seq<char>) -> SseRead
    decreases buf.len(),
    via sse_read_decreases
{
    let end = line_len(buf) as int;
    if end >= buf.len() {
        SseRead { step: SseStepModel::NeedMore, rest: buf }
    } else {
        let rest = buf.skip(end + 1);
        match payload(buf.take(end + 1)) {
            None => sse_read(rest),
            Some(data) => if data == "[DONE]"@ {
                SseRead { step: SseStepModel::Done, rest }
            } else {
                SseRead { step: SseStepModel::Data(data), rest }
            },
        }
    }
}

#[via_fn]
proof fn sse_read_decreases(buf: Seq<char>) {
    lemma_line_len(buf);
}

/// A line that is complete stays what it is when more text follows.
proof fn lemma_line_len_append(a: Seq<char>, b: Seq<char>)
    requires
        line_len(a) < a.len(),
    ensures
        line_len(a + b) == line_len(a),
    decreases a.len(),
{
    if a[0] != '\n' {
        lemma_line_len_append(a.drop_first(), b);
        assert((a + b).drop_first() =~= a.drop_first() + b);
    }
}

/// How the stream is cut into chunks makes no difference: what is read of a text
/// that goes on is what is read of it now, and then of what is left with the rest
/// behind it.
pub proof fn chunking_makes_no_difference(a: Seq<char>, b: Seq<char>)
    ensures
        match sse_read(a).step {
            SseStepModel::NeedMore => sse_read(a + b) == sse_read(sse_read(a).rest + b),
            step => sse_read(a + b) == (SseRead { step, rest: sse_read(a).rest + b }),
        },
    decreases a.len(),
{
    lemma_line_len(a);
    let end = line_len(a) as int;
    if end < a.len() {
        lemma_line_len_append(a, b);
        assert((a + b).take(end + 1) =~= a.take(end + 1));
        assert((a + b).skip(end + 1) =~= a.skip(end + 1) + b);
        chunking_makes_no_difference(a.skip(end + 1), b);
    }
}

/// The texts of a piece of the reply, in order.
pub open spec fn texts_of(choices: Seq<ChoiceModel>) -> Seq<Seq<char>>
    decreases choices.len(),
{
    if choices.len() == 0 {
        Seq::empty()
    } else {
        let earlier = texts_of(choices.drop_last());
        match choices.last().content {
            Some(text) => if text.len() > 0 {
                earlier.push(text)
            } else {
                earlier
            },
            None => earlier,
        }
    }
}

/// Why the reply ended: the last reason given.
pub open spec fn reason_after(
    reason: Option<Seq<char>>,
    choices: Seq<ChoiceModel>,
) -> Option<Seq<char>>
    decreases choices.len(),
{
    if choices.len() == 0 {
        reason
    } else if choices.last().finish_reason is Some {
        choices.last().finish_reason
    } else {
        reason_after(reason, choices.drop_last())
    }
}

/// Reads a streamed reply.
pub struct SseReader {
    pub buf: String,
    pub finish_reason: Option<String>,
}

impl SseReader {
    /// Nothing read yet.
    pub fn new() -> (r: Self)
        ensures
            r.buf@ == Seq::<char>::empty(),
            r.finish_reason is None,
    {
        SseReader { buf: String::new(), finish_reason: None }
    }

    /// More of the stream.
    pub fn feed(&mut self, chunk: &[u8])
        ensures
            final(self).buf@ == old(self).buf@ + lossy_text(chunk@),
            valid_utf8(chunk@) ==> final(self).buf@ == old(self).buf@ + decode_utf8(chunk@),
            final(self).finish_reason == old(self).finish_reason,
    {
        let more = decode(chunk);
        self.feed_text(more.as_str());
    }

    /// More of the stream, as text.
    pub fn feed_text(&mut self, more: &str)
        ensures
            final(self).buf@ == old(self).buf@ + more@,
            final(self).finish_reason == old(self).finish_reason,
    {
        self.buf.append(more);
    }

    /// Reads on to the next data line.
    pub fn next(&mut self) -> (step: SseStep)
        ensures
            step.deep_view() == sse_read(old(self).buf@).step,
            final(self).buf@ == sse_read(old(self).buf@).rest,
            final(self).finish_reason == old(self).finish_reason,
    {
        let v = text::chars_of(self.buf.as_str());
        let ghost whole = self.buf@;
        let mut from: usize = 0;
        let mut at: usize = 0;
        proof {
            assert(whole.skip(0) =~= whole);
        }
        while at < v.len()
            invariant
                from <= at <= v.len(),
                v@ == whole,
                whole == self.buf@,
                *self == *old(self),
                sse_read(whole) == sse_read(whole.skip(from as int)),
                line_len(whole.skip(from as int)) >= at - from,
                forall|k: int| from <= k < at ==> whole[k] != '\n',
            decreases v.len() - at,
        {
            if v[at] == '\n' {
                let l = text::string_of(&v, from, at + 1);
                let ghost rest = whole.skip(from as int);
                proof {
                    lemma_line_len(rest);
                    assert(rest[at - from] == '\n');
                    lemma_first_line(rest, at - from);
                    assert(rest.take(at - from + 1) =~= l@);
                    assert(rest.skip(at - from + 1) =~= whole.skip(at + 1));
                }
                let trimmed_line = text::trim(l.as_str());
                if let Some(data) = text::strip_prefix(trimmed_line.as_str(), "data:") {
                    let data = text::trim(data.as_str());
                    self.buf = text::string_of(&v, at + 1, v.len());
                    proof {
                        assert(self.buf@ =~= whole.skip(at + 1));
                    }
                    if text::same(data.as_str(), "[DONE]") {
                        return SseStep::Done;
                    }
                    return SseStep::Data(data);
                }
                from = at + 1;
            }
            at += 1;
            proof {
                if from < at {
                    lemma_no_line_end(whole.skip(from as int), at - from);
                }
            }
        }
        proof {
            lemma_line_len(whole.skip(from as int));
        }
        self.buf = text::string_of(&v, from, v.len());
        proof {
            assert(self.buf@ =~= whole.skip(from as int));
        }
        SseStep::NeedMore
    }

    /// A piece of the reply: its texts, in order.
    pub fn accept(&mut self, chunk: StreamChunk) -> (texts: Vec<String>)
        ensures
            texts.deep_view() == texts_of(chunk.choices.deep_view()),
            final(self).finish_reason.deep_view() == reason_after(
                old(self).finish_reason.deep_view(),
                chunk.choices.deep_view(),
            ),
            final(self).buf == old(self).buf,
    {
        let choices = chunk.choices;
        let ghost all = choices.deep_view();
        let mut texts: Vec<String> = Vec::new();
        let mut i: usize = 0;
        proof {
            assert(all.take(0) =~= Seq::empty());
            assert(texts.deep_view() =~= Seq::empty());
        }
        while i < choices.len()
            invariant
                i <= choices.len(),
                all == choices.deep_view(),
                texts.deep_view() == texts_of(all.take(i as int)),
                self.finish_reason.deep_view() == reason_after(
                    old(self).finish_reason.deep_view(),
                    all.take(i as int),
                ),
                self.buf == old(self).buf,
            decreases choices.len() - i,
        {
            let ghost before = texts.deep_view();
            let choice: &StreamChoice = &choices[i];
            proof {
                assert(all.take(i + 1).drop_last() =~= all.take(i as int));
                assert(all.take(i + 1).last() == choice.deep_view());
            }
            if let Some(text) = &choice.delta.content {
                if !text.as_str().is_empty() {
                    texts.push(text.clone());
                    assert(texts.deep_view() =~= before.push(text@));
                }
            }
            if let Some(reason) = &choice.finish_reason {
                self.finish_reason = Some(reason.clone());
            }
            i += 1;
        }
        proof {
            assert(all.take(i as int) =~= all);
        }
        texts
    }
}

/// The first line ends at the first line feed.
proof fn lemma_first_line(s: Seq<char>, n: int)
    requires
        0 <= n < s.len(),
        s[n] == '\n',
        forall|k: int| 0 <= k < n ==> s[k] != '\n',
    ensures
        line_len(s) == n,
    decreases s.len(),
{
    if n > 0 {
        assert(s[0] != '\n');
        lemma_first_line(s.drop_first(), n - 1);
    }
}

/// Without a line feed among them, all the characters belong to the line.
proof fn lemma_no_line_end(s: Seq<char>, n: int)
    requires
        0 <= n <= s.len(),
        forall|k: int| 0 <= k < n ==> s[k] != '\n',
    ensures
        line_len(s) >= n,
    decreases s.len(),
{
    if n > 0 {
        assert(s[0] != '\n');
        lemma_no_line_end(s.drop_first(), n - 1);
    }
}

/// Where the chat API is, and the key to it.
pub struct ChatClient {
    pub base_url: String,
    pub api_key: String,
}

impl ChatClient {
    pub fn new(base_url: String, api_key: String) -> (c: Self)
        ensures
            c.base_url == base_url,
            c.api_key == api_key,
    {
        ChatClient { base_url, api_key }
    }

    /// Where replies are asked for.
    pub fn completions_url(&self) -> (r: String)
        ensures
            r@ == self.base_url@ + "/v1/chat/completions"@,
    {
        text::cat2(self.base_url.as_str(), "/v1/chat/completions")
    }

    /// Where the models are listed.
    pub fn models_url(&self) -> (r: String)
        ensures
            r@ == self.base_url@ + "/v1/models"@,
    {
        text::cat2(self.base_url.as_str(), "/v1/models")
    }
}

/// The request for a streamed reply.
pub fn chat_request(model: &str, messages: &[ChatMessage]) -> (r: ChatRequest)
    ensures
        r.model@ == model@,
        r.messages.deep_view() == messages.deep_view(),
        r.stream,
{
    ChatRequest { model: text::owned(model), messages: copy_messages(messages), stream: true }
}

/// What is said of a request that was refused.
pub fn failure(status: &str, body: &str) -> (r: String)
    ensures
        r@ == "chat completion failed ("@ + status@ + "): "@ + at_most(body@, 400),
{
    let head = text::cat3("chat completion failed (", status, "): ");
    text::cat2(head.as_str(), text::take_chars(body, 400).as_str())
}

} // verus!
