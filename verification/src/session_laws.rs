//! What is kept of a session.

use crate::chat::types::ChatMessageModel;
use crate::config_laws::paths_are_joined_by_one_slash;
use crate::session::{
    first_user_message, names_session, newest_first, path_for, recorded, sessions_come_newest_first,
    Saved,
};
use crate::text_laws::{cutting_short_keeps_the_start, decimal_digits_read_back, numeral};
use vstd::prelude::*;

verus! {

/// Whether this is the first message that the user wrote.
pub open spec fn is_first_of_user(messages: Seq<ChatMessageModel>, i: int) -> bool {
    &&& 0 <= i < messages.len()
    &&& messages[i].role == "user"@
    &&& forall|j: int| 0 <= j < i ==> #[trigger] messages[j].role != "user"@
}

proof fn lemma_first_user_message(messages: Seq<ChatMessageModel>)
    ensures
        match first_user_message(messages) {
            Some(content) => exists|i: int| #[trigger]
                is_first_of_user(messages, i) && messages[i].content == content,
            None => forall|j: int|
                0 <= j < messages.len() ==> #[trigger] messages[j].role != "user"@,
        },
    decreases messages.len(),
{
    if messages.len() > 0 {
        if messages[0].role == "user"@ {
            assert(is_first_of_user(messages, 0));
        } else {
            let rest = messages.drop_first();
            lemma_first_user_message(rest);
            assert forall|j: int| 1 <= j < messages.len() implies #[trigger] messages[j] == rest[j
                - 1] by {}
            if let Some(content) = first_user_message(rest) {
                let i = choose|i: int| #[trigger]
                    is_first_of_user(rest, i) && rest[i].content == content;
                assert(messages[i + 1] == rest[i]);
                assert(is_first_of_user(messages, i + 1));
            }
        }
    }
}

/// A conversation is recorded whole: under its id, with its model, all of its messages
/// and the time. Its title is the first message that the user wrote, cut short behind
/// sixty characters. A conversation without messages is not recorded.
pub proof fn conversations_are_recorded_whole(
    id: Seq<char>,
    model: Seq<char>,
    messages: Seq<ChatMessageModel>,
    seconds: u64,
    i: int,
)
    ensures
        messages.len() == 0 ==> recorded(id, model, messages, seconds) is None,
        messages.len() > 0 ==> {
            let record = recorded(id, model, messages, seconds)->0;
            &&& recorded(id, model, messages, seconds) is Some
            &&& record.id == id
            &&& record.model == model
            &&& record.messages == messages
            &&& numeral(record.updated_at) == seconds
            &&& is_first_of_user(messages, i) ==> {
                &&& record.title.is_prefix_of(messages[i].content)
                &&& record.title.len() <= 60
                &&& record.title.len() == 60 || record.title == messages[i].content
            }
            &&& (forall|j: int| 0 <= j < messages.len() ==> #[trigger] messages[j].role
                != "user"@) ==> record.title == "untitled"@
        },
{
    lemma_first_user_message(messages);
    decimal_digits_read_back(seconds as nat);
    if let Some(content) = first_user_message(messages) {
        cutting_short_keeps_the_start(content, 60);
        let k = choose|k: int| #[trigger]
            is_first_of_user(messages, k) && messages[k].content == content;
        assert(messages[k].role == "user"@);
        if is_first_of_user(messages, i) {
            assert(messages[i].role == "user"@);
            if i < k {
                assert(messages[i].role != "user"@);
            } else if k < i {
                assert(messages[k].role != "user"@);
            }
        }
    }
}

/// Files that do not end in `.json`, or consist of that alone, are no sessions; every
/// other name is that of a session.
pub proof fn other_files_are_no_sessions(name: Seq<char>)
    ensures
        names_session(name) <==> exists|stem: Seq<char>|
            stem.len() > 0 && name == #[trigger] (stem + ".json"@),
{
    reveal_strlit(".json");
    let end = ".json"@;
    if names_session(name) {
        let n = name.len() - end.len();
        let stem = name.take(n);
        assert(name.subrange(n, name.len() as int) =~= end);
        assert(name =~= stem + end) by {
            assert forall|i: int| n <= i < name.len() implies name[i] == end[i - n] by {
                assert(name.subrange(n, name.len() as int)[i - n] == name[i]);
            }
        }
    }
    if exists|stem: Seq<char>| stem.len() > 0 && name == #[trigger] (stem + end) {
        let stem = choose|stem: Seq<char>| stem.len() > 0 && name == #[trigger] (stem + end);
        crate::session::saved_sessions_are_listed(stem);
    }
}

/// A session that is newer than every other is listed first, and one that is older than
/// every other last.
pub proof fn the_newest_session_is_first(entries: Seq<Saved>, i: int)
    requires
        0 <= i < entries.len(),
    ensures
        (forall|j: int| 0 <= j < entries.len() && j != i ==> #[trigger] entries[j].0
            < entries[i].0) ==> newest_first(entries)[0] == entries[i],
        (forall|j: int| 0 <= j < entries.len() && j != i ==> #[trigger] entries[j].0
            > entries[i].0) ==> newest_first(entries).last() == entries[i],
{
    let list = newest_first(entries);
    sessions_come_newest_first(entries);
    broadcast use vstd::seq_lib::group_to_multiset_ensures;

    assert(entries.to_multiset().count(entries[i]) > 0) by {
        assert(entries.contains(entries[i]));
    }
    assert(list.contains(entries[i]));
    let k = choose|k: int| 0 <= k < list.len() && list[k] == entries[i];
    let first = list[0];
    let last = list.last();
    assert(list.contains(first) && list.contains(last));
    assert(entries.to_multiset().count(first) > 0 && entries.to_multiset().count(last) > 0);
    assert(entries.contains(first) && entries.contains(last));
    let a = choose|a: int| 0 <= a < entries.len() && entries[a] == first;
    let b = choose|b: int| 0 <= b < entries.len() && entries[b] == last;
    if k > 0 {
        assert(list[0].0 >= list[k].0);
    }
    if k < list.len() - 1 {
        assert(list[k].0 >= list[list.len() - 1].0);
    }
    if forall|j: int| 0 <= j < entries.len() && j != i ==> #[trigger] entries[j].0 < entries[i].0 {
        if a != i {
            assert(entries[a].0 < entries[i].0);
        }
    }
    if forall|j: int| 0 <= j < entries.len() && j != i ==> #[trigger] entries[j].0 > entries[i].0 {
        if b != i {
            assert(entries[b].0 > entries[i].0);
        }
    }
}

/// A session is kept in a file of its own, named after its id, among the sessions in the
/// program's data; the file is one that is listed.
pub proof fn sessions_have_a_file_each(
    data_dir: &str,
    id: &str,
    other: &str,
    path: String,
    elsewhere: String,
)
    requires
        call_ensures(path_for, (data_dir, id), path),
        call_ensures(path_for, (data_dir, other), elsewhere),
        data_dir@.len() > 0 && data_dir@.last() != '/',
        id@.len() > 0 && id@[0] != '/',
        other@.len() > 0 && other@[0] != '/',
    ensures
        path@ == data_dir@ + "/sessions/"@ + id@ + ".json"@,
        names_session(id@ + ".json"@),
        path@ == elsewhere@ ==> id@ == other@,
{
    reveal_strlit("/");
    reveal_strlit("sessions");
    reveal_strlit("/sessions/");
    reveal_strlit(".json");
    assert("/"@ =~= seq!['/']);
    assert("/sessions/"@ =~= "/"@ + "sessions"@ + "/"@);
    let head = data_dir@ + "/"@ + "sessions"@;
    assert(head.last() == 's');
    paths_are_joined_by_one_slash(data_dir@, "sessions"@);
    paths_are_joined_by_one_slash(head, id@ + ".json"@);
    paths_are_joined_by_one_slash(head, other@ + ".json"@);
    assert(path@ =~= data_dir@ + "/sessions/"@ + id@ + ".json"@);
    crate::session::saved_sessions_are_listed(id@);
    if path@ == elsewhere@ {
        let n = head.len() as int + 1;
        assert(path@.len() == n + id@.len() + 5 && elsewhere@.len() == n + other@.len() + 5);
        assert(id@ =~= path@.subrange(n, n + id@.len()));
        assert(other@ =~= elsewhere@.subrange(n, n + other@.len()));
    }
}

} // verus!
