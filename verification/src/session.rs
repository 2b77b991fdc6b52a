//! Saved chat sessions: what is recorded and in which order it is offered.

use crate::chat::types::{copy_messages, ChatMessage, ChatMessageModel};
use crate::paths::{path_join, path_joined};
use crate::text;
use crate::text::{at_most, decimal};
use vstd::prelude::*;

verus! {

/// Chat sessions persist locally. Agent sessions are persisted by goose itself.
#[derive(Debug, Clone)]
pub struct Session {
    pub id: String,
    pub title: String,
    pub model: String,
    pub updated_at: String,
    pub messages: Vec<ChatMessage>,
}

/// What the session picker shows of a saved session.
#[derive(Debug, Clone)]
pub struct SessionMeta {
    pub id: String,
    pub title: String,
}

pub struct SessionModel {
    pub id: Seq<char>,
    pub title: Seq<char>,
    pub model: Seq<char>,
    pub updated_at: Seq<char>,
    pub messages: Seq<ChatMessageModel>,
}

pub struct SessionMetaModel {
    pub id: Seq<char>,
    pub title: Seq<char>,
}

impl DeepView for Session {
    type V = SessionModel;

    open spec fn deep_view(&self) -> SessionModel {
        SessionModel {
            id: self.id@,
            title: self.title@,
            model: self.model@,
            updated_at: self.updated_at@,
            messages: self.messages.deep_view(),
        }
    }
}

impl DeepView for SessionMeta {
    type V = SessionMetaModel;

    open spec fn deep_view(&self) -> SessionMetaModel {
        SessionMetaModel { id: self.id@, title: self.title@ }
    }
}

/// A lower-case hexadecimal digit.
pub open spec fn hex_digit(c: char) -> bool {
    '0' <= c <= '9' || 'a' <= c <= 'f'
}

/// The shape of a random (version 4) UUID in hyphenated form.
pub open spec fn is_session_id(s: Seq<char>) -> bool {
    &&& s.len() == 36
    &&& s[8] == '-' && s[13] == '-' && s[18] == '-' && s[23] == '-'
    &&& s[14] == '4'
    &&& s[19] == '8' || s[19] == '9' || s[19] == 'a' || s[19] == 'b'
    &&& forall|i: int|
        0 <= i < 36 && i != 8 && i != 13 && i != 18 && i != 23 ==> hex_digit(#[trigger] s[i])
}

/// `uuid::Uuid::new_v4` and its `Display`: random digits in the hyphenated
/// form, of which only the shape is stated. It panics where the operating
/// system has no random bytes to give.
#[verifier::external_body]
pub(crate) fn fresh_id() -> (id: String)
    ensures
        is_session_id(id@),
{
    uuid::Uuid::new_v4().to_string()
}

/// The directory that holds the sessions.
pub fn sessions_dir(data_dir: &str) -> (r: String)
    ensures
        r@ == path_joined(data_dir@, "sessions"@),
{
    path_join(data_dir, "sessions")
}

/// The file of a session.
pub fn path_for(data_dir: &str, id: &str) -> (r: String)
    ensures
        r@ == path_joined(path_joined(data_dir@, "sessions"@), id@ + ".json"@),
{
    let dir = sessions_dir(data_dir);
    let name = text::cat2(id, ".json");
    path_join(dir.as_str(), name.as_str())
}

/// Whether a file of this name holds a session: it ends in `.json`, behind something.
pub open spec fn names_session(name: Seq<char>) -> bool {
    name.len() > ".json"@.len() && ".json"@.is_suffix_of(name)
}

/// Whether a file of this name holds a session.
pub fn is_session_file(name: &str) -> (r: bool)
    ensures
        r == names_session(name@),
{
    let v = text::chars_of(name);
    let end = text::chars_of(".json");
    if v.len() <= end.len() {
        return false;
    }
    let at = v.len() - end.len();
    proof {
        assert(name@.skip(at as int).len() == end.len());
        assert(name@.skip(at as int).take(end.len() as int) =~= name@.skip(at as int));
        assert(name@.subrange(at as int, name@.len() as int) =~= name@.skip(at as int));
    }
    text::matches_at(&v, at, &end)
}

/// The file that a session is saved in is listed among the sessions.
pub proof fn saved_sessions_are_listed(id: Seq<char>)
    requires
        id.len() > 0,
    ensures
        names_session(id + ".json"@),
{
    let name = id + ".json"@;
    assert(name.subrange(name.len() - ".json"@.len(), name.len() as int) =~= ".json"@);
}

/// When a session was saved, in seconds: precise enough for a picker.
pub fn now(seconds: u64) -> (r: String)
    ensures
        r@ == decimal(seconds as nat),
{
    text::to_decimal(seconds)
}

/// The first message that the user wrote.
pub open spec fn first_user_message(messages: Seq<ChatMessageModel>) -> Option<Seq<char>>
    decreases messages.len(),
{
    if messages.len() == 0 {
        None
    } else if messages[0].role == "user"@ {
        Some(messages[0].content)
    } else {
        first_user_message(messages.drop_first())
    }
}

/// What a session is called: the start of the first message that the user wrote.
pub open spec fn title_of(messages: Seq<ChatMessageModel>) -> Seq<char> {
    match first_user_message(messages) {
        Some(content) => at_most(content, 60),
        None => "untitled"@,
    }
}

/// What a session is called.
fn title(messages: &[ChatMessage]) -> (r: String)
    ensures
        r@ == title_of(messages.deep_view()),
{
    let mut i: usize = 0;
    let ghost all = messages.deep_view();
    proof {
        assert(all.skip(0) =~= all);
    }
    while i < messages.len()
        invariant
            i <= messages.len(),
            all == messages.deep_view(),
            first_user_message(all) == first_user_message(all.skip(i as int)),
        decreases messages.len() - i,
    {
        proof {
            assert(all.skip(i as int)[0] == messages[i as int].deep_view());
            assert(all.skip(i as int).drop_first() =~= all.skip(i + 1));
        }
        if text::same(messages[i].role.as_str(), "user") {
            return text::take_chars(messages[i].content.as_str(), 60);
        }
        i += 1;
    }
    "untitled".to_string()
}

/// The record of a conversation; one without messages is not recorded.
pub open spec fn recorded(
    id: Seq<char>,
    model: Seq<char>,
    messages: Seq<ChatMessageModel>,
    seconds: u64,
) -> Option<SessionModel> {
    if messages.len() == 0 {
        None
    } else {
        Some(
            SessionModel {
                id,
                title: title_of(messages),
                model,
                updated_at: decimal(seconds as nat),
                messages,
            },
        )
    }
}

/// The record to be written for a conversation, if there is anything to record.
pub fn save(id: &str, model: &str, messages: &[ChatMessage], seconds: u64) -> (r: Option<Session>)
    ensures
        r.deep_view() == recorded(id@, model@, messages.deep_view(), seconds),
{
    if messages.len() == 0 {
        return None;
    }
    Some(
        Session {
            id: text::owned(id),
            title: title(messages),
            model: text::owned(model),
            updated_at: now(seconds),
            messages: copy_messages(messages),
        },
    )
}

/// A saved session and when its file was last written.
pub type Saved = (i128, SessionMetaModel);

/// The list, newest first, with one more session in its place: behind those that
/// are as new.
pub open spec fn filed(list: Seq<Saved>, s: Saved) -> Seq<Saved>
    decreases list.len(),
{
    if list.len() == 0 || list.last().0 >= s.0 {
        list.push(s)
    } else {
        filed(list.drop_last(), s).push(list.last())
    }
}

/// The sessions, newest first; those that are equally new keep their order.
pub open spec fn newest_first(entries: Seq<Saved>) -> Seq<Saved>
    decreases entries.len(),
{
    if entries.len() == 0 {
        Seq::empty()
    } else {
        filed(newest_first(entries.drop_last()), entries.last())
    }
}

/// Whether the sessions come newest first.
pub open spec fn is_newest_first(list: Seq<Saved>) -> bool {
    forall|i: int, j: int| 0 <= i < j < list.len() ==> #[trigger] list[i].0 >= #[trigger] list[j].0
}

proof fn lemma_filed(list: Seq<Saved>, s: Saved)
    requires
        is_newest_first(list),
    ensures
        is_newest_first(filed(list, s)),
        filed(list, s).to_multiset() == list.to_multiset().insert(s),
        filed(list, s).len() == list.len() + 1,
        forall|i: int|
            0 <= i < filed(list, s).len() ==> (#[trigger] filed(list, s)[i] == s || list.contains(
                filed(list, s)[i],
            )),
    decreases list.len(),
{
    broadcast use vstd::seq_lib::group_to_multiset_ensures;

    if list.len() == 0 || list.last().0 >= s.0 {
        assert forall|i: int| 0 <= i < filed(list, s).len() implies (#[trigger] filed(list, s)[i]
            == s || list.contains(filed(list, s)[i])) by {
            if i < list.len() {
                assert(list[i] == filed(list, s)[i]);
            }
        }
    } else {
        let rest = list.drop_last();
        lemma_filed(rest, s);
        let r = filed(rest, s);
        assert(list =~= rest.push(list.last()));
        assert forall|i: int| 0 <= i < filed(list, s).len() implies (#[trigger] filed(list, s)[i]
            == s || list.contains(filed(list, s)[i])) by {
            if i < r.len() {
                assert(filed(list, s)[i] == r[i]);
                if r[i] != s {
                    let k = choose|k: int| 0 <= k < rest.len() && rest[k] == r[i];
                    assert(list[k] == r[i]);
                }
            } else {
                assert(list[list.len() - 1] == filed(list, s)[i]);
            }
        }
        assert forall|i: int, j: int| 0 <= i < j < filed(list, s).len() implies #[trigger] filed(
            list,
            s,
        )[i].0 >= #[trigger] filed(list, s)[j].0 by {
            if j == r.len() {
                assert(filed(list, s)[i] == r[i]);
                if r[i] != s {
                    let k = choose|k: int| 0 <= k < rest.len() && rest[k] == r[i];
                    assert(list[k].0 >= list[list.len() - 1].0);
                }
            } else {
                assert(r[i].0 >= r[j].0);
            }
        }
    }
}

/// The saved sessions are offered newest first, each of them once.
pub proof fn sessions_come_newest_first(entries: Seq<Saved>)
    ensures
        is_newest_first(newest_first(entries)),
        newest_first(entries).to_multiset() == entries.to_multiset(),
        newest_first(entries).len() == entries.len(),
    decreases entries.len(),
{
    broadcast use vstd::seq_lib::group_to_multiset_ensures;

    if entries.len() > 0 {
        sessions_come_newest_first(entries.drop_last());
        lemma_filed(newest_first(entries.drop_last()), entries.last());
        assert(entries =~= entries.drop_last().push(entries.last()));
    } else {
        assert(entries =~= Seq::empty());
    }
}

/// Those of the sessions that were written at this time.
pub open spec fn written_at(list: Seq<Saved>, time: i128) -> Seq<Saved>
    decreases list.len(),
{
    if list.len() == 0 {
        Seq::empty()
    } else if list.last().0 == time {
        written_at(list.drop_last(), time).push(list.last())
    } else {
        written_at(list.drop_last(), time)
    }
}

proof fn lemma_filed_stable(list: Seq<Saved>, s: Saved, time: i128)
    requires
        is_newest_first(list),
    ensures
        written_at(filed(list, s), time) == if s.0 == time {
            written_at(list, time).push(s)
        } else {
            written_at(list, time)
        },
    decreases list.len(),
{
    let f = filed(list, s);
    if list.len() == 0 || list.last().0 >= s.0 {
        assert(f.drop_last() =~= list);
    } else {
        lemma_filed_stable(list.drop_last(), s, time);
        assert(f.drop_last() =~= filed(list.drop_last(), s));
        if s.0 == time {
            // What is older than the new session was not written at its time.
            assert(list.last().0 != time);
        }
    }
}

/// Sessions that were written at the same time keep their order.
pub proof fn equally_new_sessions_keep_their_order(entries: Seq<Saved>, time: i128)
    ensures
        written_at(newest_first(entries), time) == written_at(entries, time),
    decreases entries.len(),
{
    if entries.len() > 0 {
        let rest = entries.drop_last();
        equally_new_sessions_keep_their_order(rest, time);
        sessions_come_newest_first(rest);
        lemma_filed_stable(newest_first(rest), entries.last(), time);
    }
}

/// A session goes to its place in the list.
fn file(list: &mut Vec<(i128, SessionMeta)>, s: (i128, SessionMeta))
    ensures
        final(list).deep_view() == filed(old(list).deep_view(), s.deep_view()),
{
    let mut at: usize = list.len();
    let ghost all = list.deep_view();
    proof {
        assert(all.take(at as int) =~= all);
        assert(filed(all, s.deep_view()) + all.skip(at as int) =~= filed(all, s.deep_view()));
    }
    while at > 0 && list[at - 1].0 < s.0
        invariant
            at <= list.len(),
            all == list.deep_view(),
            filed(all, s.deep_view()) == filed(all.take(at as int), s.deep_view()) + all.skip(
                at as int,
            ),
        decreases at,
    {
        at -= 1;
        proof {
            let upto = all.take(at + 1);
            assert(upto.last() == list[at as int].deep_view());
            assert(upto.drop_last() =~= all.take(at as int));
            assert(filed(upto, s.deep_view()) + all.skip(at + 1) =~= filed(
                all.take(at as int),
                s.deep_view(),
            ) + all.skip(at as int));
        }
    }
    proof {
        if at > 0 {
            assert(all.take(at as int).last() == list[at - 1].deep_view());
        }
        assert(filed(all.take(at as int), s.deep_view()) == all.take(at as int).push(s.deep_view()));
    }
    list.insert(at, s);
    proof {
        assert(list.deep_view() =~= all.take(at as int).push(s.deep_view()) + all.skip(at as int));
    }
}

/// The saved sessions, newest first, by the time when each file was written.
pub fn list(entries: Vec<(i128, SessionMeta)>) -> (r: Vec<SessionMeta>)
    ensures
        r.deep_view() == newest_first(entries.deep_view()).map_values(|s: Saved| s.1),
{
    let mut sorted: Vec<(i128, SessionMeta)> = Vec::new();
    let ghost all = entries.deep_view();
    let mut i: usize = 0;
    proof {
        assert(sorted.deep_view() =~= newest_first(all.take(0)));
    }
    while i < entries.len()
        invariant
            i <= entries.len(),
            all == entries.deep_view(),
            sorted.deep_view() == newest_first(all.take(i as int)),
        decreases entries.len() - i,
    {
        let meta = &entries[i].1;
        let s = (
            entries[i].0,
            SessionMeta { id: meta.id.clone(), title: meta.title.clone() },
        );
        proof {
            assert(all[i as int] == entries[i as int].deep_view());
            assert(all.take(i + 1).drop_last() =~= all.take(i as int));
            assert(all.take(i + 1).last() == s.deep_view());
        }
        file(&mut sorted, s);
        i += 1;
    }
    proof {
        assert(all.take(i as int) =~= all);
    }
    let ghost ordered = sorted.deep_view();
    let mut r: Vec<SessionMeta> = Vec::new();
    let mut k: usize = 0;
    while k < sorted.len()
        invariant
            k <= sorted.len(),
            ordered == sorted.deep_view(),
            r.deep_view() =~= ordered.map_values(|s: Saved| s.1).take(k as int),
        decreases sorted.len() - k,
    {
        let ghost before = r.deep_view();
        let meta = &sorted[k].1;
        r.push(SessionMeta { id: meta.id.clone(), title: meta.title.clone() });
        proof {
            assert(ordered[k as int] == sorted[k as int].deep_view());
            assert(r.deep_view() =~= before.push(ordered[k as int].1));
        }
        k += 1;
    }
    proof {
        assert(ordered.map_values(|s: Saved| s.1).take(k as int) =~= ordered.map_values(
            |s: Saved| s.1,
        ));
    }
    r
}

} // verus!
