//! What the tools read from their input and what they show of the list, field by
//! field.
use vstd::prelude::*;
use vstd::string::*;

use serde_json::Value;

use crate::checklist;
use crate::dag_tools;
use crate::item::{TodoItemView, TodoListSnapshotView};
use crate::json;
use crate::json::Json;
use crate::model::TodoListView;
use crate::schema;
use crate::status;
use crate::status::TodoStatus;
use crate::text;
use crate::tool;
use crate::tool::{ToolError, ToolResult};

verus! {

/// An object has the field `key` with the value that its map has there; nothing
/// else has fields.
pub proof fn law_field(j: Json, key: Seq<char>)
    ensures
        match j {
            Json::Object(m) => {
                &&& m.contains_key(key) ==> j.field(key) == Some(m[key])
                &&& !m.contains_key(key) ==> j.field(key) is None
            },
            _ => j.field(key) is None,
        },
{
}

/// An object made of fields has for each name the value of the last field with
/// that name, and no other names.
pub proof fn law_object(fields: Seq<(Seq<char>, Json)>, key: Seq<char>)
    ensures
        forall|i: int|
            0 <= i < fields.len() && (#[trigger] fields[i]).0 == key && (forall|k: int|
                i < k < fields.len() ==> (#[trigger] fields[k]).0 != key) ==> Json::object(
                fields,
            ).field(key) == Some(fields[i].1),
        (forall|i: int| 0 <= i < fields.len() ==> (#[trigger] fields[i]).0 != key)
            ==> Json::object(fields).field(key) is None,
    decreases fields.len(),
{
    if fields.len() > 0 {
        let rest = fields.drop_last();
        law_object(rest, key);
        assert forall|i: int|
            0 <= i < fields.len() && (#[trigger] fields[i]).0 == key && (forall|k: int|
                i < k < fields.len() ==> (#[trigger] fields[k]).0 != key) implies Json::object(
            fields,
        ).field(key) == Some(fields[i].1) by {
            if i < rest.len() {
                assert(rest[i].0 == key);
                assert(fields[fields.len() - 1].0 != key);
            }
        }
        if forall|i: int| 0 <= i < fields.len() ==> (#[trigger] fields[i]).0 != key {
            assert(forall|i: int| 0 <= i < rest.len() ==> (#[trigger] rest[i]).0 == fields[i].0);
            assert(fields[fields.len() - 1].0 != key);
        }
    }
}

/// A field is read as a text just if it is there and is one.
pub proof fn law_text_field(j: Json, key: Seq<char>, s: Seq<char>)
    ensures
        j.text_field(key) == Some(s) <==> j.field(key) == Some(Json::Text(s)),
{
}

/// A field is read as an id just if it is there and is an integer that an id can
/// be.
pub proof fn law_id_field(j: Json, key: Seq<char>, id: u32)
    ensures
        j.id_field(key) == Some(id) <==> j.field(key) == Some(Json::Int(id as int)),
{
}

/// A document is read as ids just if it is an array of integers that ids can be,
/// and gives them in their order.
pub proof fn law_ids(j: Json, ids: Seq<u32>)
    ensures
        j.ids() == Some(ids) <==> j is Array && j->Array_0.len() == ids.len() && forall|i: int|
            0 <= i < ids.len() ==> (#[trigger] j->Array_0[i]) == Json::Int(ids[i] as int),
{
    if j is Array {
        let s = j->Array_0;
        if j.ids() == Some(ids) {
            assert forall|i: int| 0 <= i < ids.len() implies (#[trigger] s[i]) == Json::Int(
                ids[i] as int,
            ) by {
                assert(s[i].int_up_to(u32::MAX as int) is Some);
            }
        }
        if s.len() == ids.len() && forall|i: int|
            0 <= i < ids.len() ==> (#[trigger] s[i]) == Json::Int(ids[i] as int) {
            assert forall|i: int| 0 <= i < s.len() implies (#[trigger] s[i]).int_up_to(
                u32::MAX as int,
            ) is Some by {}
            assert(j.ids()->0 =~= ids);
        }
    }
}

/// What is shown of an id, a text, texts and ids.
pub proof fn law_shown_values(
    id: Option<u32>,
    t: Option<Seq<char>>,
    ts: Seq<Seq<char>>,
    ids: Seq<u32>,
)
    ensures
        id is Some ==> Json::optional_id(id) == Json::Int(id->0 as int),
        id is None ==> Json::optional_id(id) == Json::Null,
        t is Some ==> Json::optional_text(t) == Json::Text(t->0),
        t is None ==> Json::optional_text(t) == Json::Null,
        Json::texts(ts) matches Json::Array(s) && s.len() == ts.len() && forall|i: int|
            0 <= i < ts.len() ==> (#[trigger] s[i]) == Json::Text(ts[i]),
        Json::id_array(ids) matches Json::Array(s) && s.len() == ids.len() && forall|i: int|
            0 <= i < ids.len() ==> (#[trigger] s[i]) == Json::Int(ids[i] as int),
        Json::id_array(ids).ids() == Some(ids),
{
    law_ids(Json::id_array(ids), ids);
}

/// A document that was written is shown as it was, any other as the empty object.
pub proof fn law_written_document(t: Option<Seq<char>>)
    ensures
        t is Some ==> json::text_or_empty_object(t) == t->0,
        t is None ==> json::text_or_empty_object(t) == seq!['{', '}'],
{
    reveal_strlit("{}");
    assert("{}"@ =~= seq!['{', '}']);
}

/// A digit is its own numeral, and one more digit makes a numeral ten times as
/// much and that digit.
pub proof fn law_decimal(n: nat, d: nat)
    requires
        d < 10,
    ensures
        text::decimal(d).len() == 1,
        text::decimal(d)[0] as int == '0' as int + d,
        n > 0 ==> text::decimal(10 * n + d) == text::decimal(n).push(text::decimal(d)[0]),
{
    reveal_strlit("0123456789");
    if n > 0 {
        assert((10 * n + d) / 10 == n);
        assert((10 * n + d) % 10 == d);
    }
}

/// The leading white space goes, up to the first other character.
proof fn lemma_trimmed_start(s: Seq<char>) -> (n: int)
    ensures
        0 <= n <= s.len(),
        text::trimmed_start(s) == s.skip(n),
        forall|i: int| 0 <= i < n ==> text::is_white_space(#[trigger] s[i]),
        n < s.len() ==> !text::is_white_space(s[n]),
    decreases s.len(),
{
    if s.len() > 0 && text::is_white_space(s.first()) {
        let rest = s.drop_first();
        let m = lemma_trimmed_start(rest);
        assert(rest.skip(m) =~= s.skip(m + 1));
        assert forall|i: int| 0 <= i < m + 1 implies text::is_white_space(#[trigger] s[i]) by {
            if i > 0 {
                assert(rest[i - 1] == s[i]);
            }
        }
        m + 1
    } else {
        assert(s.skip(0) =~= s);
        0
    }
}

/// The trailing white space goes, down to the last other character.
proof fn lemma_trimmed_end(s: Seq<char>) -> (n: int)
    ensures
        0 <= n <= s.len(),
        text::trimmed_end(s) == s.take(n),
        forall|i: int| n <= i < s.len() ==> text::is_white_space(#[trigger] s[i]),
        n > 0 ==> !text::is_white_space(s[n - 1]),
    decreases s.len(),
{
    if s.len() > 0 && text::is_white_space(s.last()) {
        let rest = s.drop_last();
        let m = lemma_trimmed_end(rest);
        assert(rest.take(m) =~= s.take(m));
        assert forall|i: int| m <= i < s.len() implies text::is_white_space(#[trigger] s[i]) by {
            if i < rest.len() {
                assert(rest[i] == s[i]);
            }
        }
        m
    } else {
        assert(s.take(s.len() as int) =~= s);
        s.len() as int
    }
}

/// Trimming cuts off white space at both ends and leaves none there; what is
/// between stays.
pub proof fn law_trimmed(s: Seq<char>)
    ensures
        exists|a: int, b: int|
            0 <= a <= b <= s.len() && text::trimmed(s) == #[trigger] s.subrange(a, b) && (forall|
                i: int,
            |
                0 <= i < s.len() && !(a <= i < b) ==> text::is_white_space(#[trigger] s[i])),
        text::trimmed(s).len() > 0 ==> !text::is_white_space(text::trimmed(s).first())
            && !text::is_white_space(text::trimmed(s).last()),
{
    let a = lemma_trimmed_start(s);
    let rest = s.skip(a);
    let m = lemma_trimmed_end(rest);
    assert(rest.take(m) =~= s.subrange(a, a + m));
    assert forall|i: int| 0 <= i < s.len() && !(a <= i < a + m) implies text::is_white_space(
        #[trigger] s[i],
    ) by {
        if i >= a {
            assert(rest[i - a] == s[i]);
        }
    }
}

/// The word for each status, as in the input and the output of the tools.
pub proof fn law_status_words()
    ensures
        status::status_word(TodoStatus::Pending) == "pending"@,
        status::status_word(TodoStatus::Ready) == "ready"@,
        status::status_word(TodoStatus::InProgress) == "in_progress"@,
        status::status_word(TodoStatus::Completed) == "completed"@,
        status::status_word(TodoStatus::Failed) == "failed"@,
        status::status_word(TodoStatus::Skipped) == "skipped"@,
        status::parsed_status("inprogress"@) == Some(TodoStatus::InProgress),
        status::parsed_status("done"@) == Some(TodoStatus::Completed),
{
    reveal_strlit("pending");
    reveal_strlit("ready");
    reveal_strlit("in_progress");
    reveal_strlit("inprogress");
    reveal_strlit("completed");
    reveal_strlit("done");
    assert("pending"@.len() == 7);
    assert("ready"@.len() == 5);
    assert("in_progress"@.len() == 11);
    assert("completed"@.len() == 9);
    let a = "inprogress"@;
    let b = "done"@;
    assert(a.len() == 10);
    assert(b.len() == 4);
    assert(vstd::utf8::is_ascii_chars(a));
    assert(vstd::utf8::is_ascii_chars(b));
    assert(text::trimmed(a) == a);
    assert(text::trimmed(b) == b);
    assert(text::lowercase(a) =~= a);
    assert(text::lowercase(b) =~= b);
}

/// A word stands for a status just if it is the status's own word or one of the
/// two others known, `inprogress` and `done`; different statuses have different
/// words.
pub proof fn law_known_words(w: Seq<char>, s: TodoStatus, t: TodoStatus)
    ensures
        status::status_of_word(w) == Some(s) <==> w == status::status_word(s) || (w
            == "inprogress"@ && s == TodoStatus::InProgress) || (w == "done"@ && s
            == TodoStatus::Completed),
        status::status_word(s) == status::status_word(t) ==> s == t,
{
    reveal_strlit("pending");
    reveal_strlit("ready");
    reveal_strlit("in_progress");
    reveal_strlit("inprogress");
    reveal_strlit("completed");
    reveal_strlit("done");
    reveal_strlit("failed");
    reveal_strlit("skipped");
    assert("pending"@.len() == 7);
    assert("ready"@.len() == 5);
    assert("in_progress"@.len() == 11);
    assert("inprogress"@.len() == 10);
    assert("completed"@.len() == 9);
    assert("done"@.len() == 4);
    assert("failed"@.len() == 6);
    assert("skipped"@.len() == 7);
    assert("pending"@[0] != "skipped"@[0]);
}

/// A text stands for the status of its word without the white space around it and
/// in lower case.
pub proof fn law_parsed_status(s: Seq<char>)
    ensures
        status::parsed_status(s) == status::status_of_word(text::lowercase(text::trimmed(s))),
        vstd::utf8::is_ascii_chars(s) ==> text::lowercase(s).len() == s.len() && forall|i: int|
            0 <= i < s.len() ==> (#[trigger] text::lowercase(s)[i]) as int == if 'A' <= s[i]
                <= 'Z' {
                s[i] as int + ('a' as int - 'A' as int)
            } else {
                s[i] as int
            },
{
}

/// Just the completed, failed and skipped are final.
pub proof fn law_terminal(s: TodoStatus)
    ensures
        status::terminal(s) <==> s != TodoStatus::Pending && s != TodoStatus::Ready && s
            != TodoStatus::InProgress,
{
}

/// The status for a new item is the one that the input's text stands for, and
/// pending where there is no text or it stands for none; that of an update is the
/// same, and none in those cases.
pub proof fn law_requested_status(input: Json)
    ensures
        ({
            let word = input.text_field("status"@);
            &&& word is None ==> checklist::requested_status(word) == TodoStatus::Pending
                && checklist::requested_update(input) is None
            &&& word is Some ==> checklist::requested_update(input) == status::parsed_status(
                word->0,
            )
            &&& word is Some && status::parsed_status(word->0) is None
                ==> checklist::requested_status(word) == TodoStatus::Pending
            &&& word is Some && status::parsed_status(word->0) is Some ==> Some(
                checklist::requested_status(word),
            ) == status::parsed_status(word->0)
        }),
{
}

/// The todos of a write are the elements of the array in the field of that name,
/// and the dependencies of a subtask the ids in that field, which may be absent
/// but not anything else.
pub proof fn law_requested_lists(input: Json, todos: Seq<Json>, ids: Seq<u32>)
    ensures
        checklist::requested_todos(input) == Some(todos) <==> input.field("todos"@) == Some(
            Json::Array(todos),
        ),
        dag_tools::requested_dependencies(input) is None <==> input.field("depends_on"@) is None,
        dag_tools::requested_dependencies(input) == Some(Some(ids)) <==> (input.field(
            "depends_on"@,
        ) is Some && input.field("depends_on"@)->0.ids() == Some(ids)),
{
}

/// The todos before the first one without content can be used, and no more.
pub proof fn law_usable(todos: Seq<Json>)
    ensures
        checklist::usable(todos) <= todos.len(),
        forall|i: int|
            0 <= i < checklist::usable(todos) ==> (#[trigger] todos[i]).text_field(
                "content"@,
            ) is Some,
        checklist::usable(todos) < todos.len() ==> todos[checklist::usable(
            todos,
        ) as int].text_field("content"@) is None,
    decreases todos.len(),
{
    if todos.len() > 0 && todos.first().text_field("content"@) is Some {
        let rest = todos.drop_first();
        law_usable(rest);
        assert forall|i: int| 0 <= i < checklist::usable(todos) implies (
        #[trigger] todos[i]).text_field("content"@) is Some by {
            if i > 0 {
                assert(rest[i - 1] == todos[i]);
            }
        }
    }
}

/// The summary begins as told, then gives how many items there are and how much is
/// done.
pub proof fn law_summary(opening: Seq<char>, snapshot: TodoListSnapshotView)
    ensures
        ({
            let s = checklist::summary(opening, snapshot);
            let n = text::decimal(snapshot.items.len());
            let p = text::decimal(snapshot.completion_pct);
            let a = opening.len() as int;
            let b = a + n.len();
            let c = b + " items, "@.len();
            let d = c + p.len();
            &&& s.subrange(0, a) == opening
            &&& s.subrange(a, b) == n
            &&& s.subrange(b, c) == " items, "@
            &&& s.subrange(c, d) == p
            &&& s.subrange(d, s.len() as int) == "% complete)\n"@
        }),
{
    let s = checklist::summary(opening, snapshot);
    let n = text::decimal(snapshot.items.len());
    let p = text::decimal(snapshot.completion_pct);
    let a = opening.len() as int;
    let b = a + n.len();
    let c = b + " items, "@.len();
    let d = c + p.len();
    assert(s.subrange(0, a) =~= opening);
    assert(s.subrange(a, b) =~= n);
    assert(s.subrange(b, c) =~= " items, "@);
    assert(s.subrange(c, d) =~= p);
    assert(s.subrange(d, s.len() as int) =~= "% complete)\n"@);
}

/// The names of the fields of shown items differ.
proof fn lemma_item_names()
    ensures
        "id"@ != "content"@,
        "id"@ != "status"@,
        "id"@ != "depends_on"@,
        "id"@ != "error"@,
        "id"@ != "message"@,
        "content"@ != "status"@,
        "content"@ != "depends_on"@,
        "content"@ != "error"@,
        "status"@ != "depends_on"@,
        "status"@ != "error"@,
        "status"@ != "message"@,
        "depends_on"@ != "error"@,
{
    reveal_strlit("id");
    reveal_strlit("content");
    reveal_strlit("status");
    reveal_strlit("depends_on");
    reveal_strlit("error");
    reveal_strlit("message");
    assert("id"@.len() == 2);
    assert("content"@.len() == 7);
    assert("status"@.len() == 6);
    assert("depends_on"@.len() == 10);
    assert("error"@.len() == 5);
    assert("message"@.len() == 7);
}

/// The metadata shows of an item its id, its content and the word for its status,
/// and nothing else.
pub proof fn law_metadata_item(it: TodoItemView)
    ensures
        tool::metadata_item(it).field("id"@) == Some(Json::Int(it.id as int)),
        tool::metadata_item(it).field("content"@) == Some(Json::Text(it.content)),
        tool::metadata_item(it).field("status"@) == Some(
            Json::Text(status::status_word(it.status)),
        ),
        forall|key: Seq<char>| #[trigger]
            tool::metadata_item(it).field(key) is Some ==> key == "id"@ || key == "content"@ || key
                == "status"@,
{
    reveal_with_fuel(json::fields_map, 5);
    lemma_item_names();
}

/// The metadata shows every item of the snapshot, in its place.
pub proof fn law_metadata_items(snapshot: TodoListSnapshotView, tool_name: Seq<char>)
    ensures
        ({
            let updates = tool::metadata_of(snapshot, tool_name).field("task_updates"@)->0;
            let checklist = updates.field("checklist"@)->0;
            checklist.field("items"@) matches Some(Json::Array(items)) && items.len()
                == snapshot.items.len() && forall|i: int|
                0 <= i < items.len() ==> {
                    &&& (#[trigger] items[i]).field("id"@) == Some(
                        Json::Int(snapshot.items[i].id as int),
                    )
                    &&& items[i].field("content"@) == Some(Json::Text(snapshot.items[i].content))
                    &&& items[i].field("status"@) == Some(
                        Json::Text(status::status_word(snapshot.items[i].status)),
                    )
                }
        }),
        ({
            let updates = tool::metadata_of(snapshot, tool_name).field("task_updates"@)->0;
            let checklist = updates.field("checklist"@)->0;
            &&& checklist.field("completion_pct"@) == Some(
                Json::Int(snapshot.completion_pct as int),
            )
            &&& snapshot.in_progress_id is Some ==> checklist.field("in_progress_id"@) == Some(
                Json::Int(snapshot.in_progress_id->0 as int),
            )
            &&& snapshot.in_progress_id is None ==> checklist.field("in_progress_id"@) == Some(
                Json::Null,
            )
        }),
{
    tool::law_metadata_shows_snapshot(snapshot, tool_name);
    assert forall|i: int| 0 <= i < snapshot.items.len() implies {
        let shown = tool::metadata_item(#[trigger] snapshot.items[i]);
        &&& shown.field("id"@) == Some(Json::Int(snapshot.items[i].id as int))
        &&& shown.field("content"@) == Some(Json::Text(snapshot.items[i].content))
        &&& shown.field("status"@) == Some(
            Json::Text(status::status_word(snapshot.items[i].status)),
        )
    } by {
        law_metadata_item(snapshot.items[i]);
    }
}

/// The answer for a new subtask gives its id, calls it pending and names it in a
/// message.
pub proof fn law_subtask_answer(id: u32)
    ensures
        dag_tools::subtask_answer(id).field("id"@) == Some(Json::Int(id as int)),
        dag_tools::subtask_answer(id).field("status"@) == Some(Json::Text("pending"@)),
        dag_tools::subtask_answer(id).field("message"@) == Some(
            Json::Text("已添加子任务 #"@ + text::decimal(id as nat)),
        ),
        forall|key: Seq<char>| #[trigger]
            dag_tools::subtask_answer(id).field(key) is Some ==> key == "id"@ || key == "status"@
                || key == "message"@,
{
    reveal_with_fuel(json::fields_map, 5);
    lemma_item_names();
}

/// The DAG status shows of an item its id, its content, the word for its status,
/// its dependencies in their order and its error, if it has one.
pub proof fn law_task_status(it: TodoItemView)
    ensures
        dag_tools::task_status(it).field("id"@) == Some(Json::Int(it.id as int)),
        dag_tools::task_status(it).field("content"@) == Some(Json::Text(it.content)),
        dag_tools::task_status(it).field("status"@) == Some(
            Json::Text(status::status_word(it.status)),
        ),
        dag_tools::task_status(it).field("depends_on"@) is Some,
        dag_tools::task_status(it).field("depends_on"@)->0.ids() == Some(it.depends_on),
        it.error is Some ==> dag_tools::task_status(it).field("error"@) == Some(
            Json::Text(it.error->0),
        ),
        it.error is None ==> dag_tools::task_status(it).field("error"@) == Some(Json::Null),
        forall|key: Seq<char>| #[trigger]
            dag_tools::task_status(it).field(key) is Some ==> key == "id"@ || key == "content"@
                || key == "status"@ || key == "depends_on"@ || key == "error"@,
{
    reveal_with_fuel(json::fields_map, 7);
    lemma_item_names();
    law_shown_values(None, None, Seq::empty(), it.depends_on);
}

/// The DAG status gives the completion percentage of the list, the item in
/// progress, whether all is done, and every item in its place.
pub proof fn law_dag_status(l: TodoListView)
    ensures
        dag_tools::dag_status(l).field("completion_pct"@) == Some(
            Json::Int(l.percentage() as int),
        ),
        l.in_progress() is Some ==> dag_tools::dag_status(l).field("in_progress_id"@) == Some(
            Json::Int(l.in_progress()->0 as int),
        ),
        l.in_progress() is None ==> dag_tools::dag_status(l).field("in_progress_id"@) == Some(
            Json::Null,
        ),
        dag_tools::dag_status(l).field("is_all_terminal"@) == Some(Json::Bool(l.all_terminal())),
        dag_tools::dag_status(l).field("tasks"@) matches Some(Json::Array(tasks)) && tasks.len()
            == l.items.len() && forall|i: int|
            0 <= i < tasks.len() ==> {
                &&& (#[trigger] tasks[i]).field("id"@) == Some(Json::Int(l.items[i].id as int))
                &&& tasks[i].field("content"@) == Some(Json::Text(l.items[i].content))
                &&& tasks[i].field("status"@) == Some(
                    Json::Text(status::status_word(l.items[i].status)),
                )
                &&& tasks[i].field("depends_on"@) is Some
                &&& tasks[i].field("depends_on"@)->0.ids() == Some(l.items[i].depends_on)
                &&& l.items[i].error is Some ==> tasks[i].field("error"@) == Some(
                    Json::Text(l.items[i].error->0),
                )
                &&& l.items[i].error is None ==> tasks[i].field("error"@) == Some(Json::Null)
            },
        forall|key: Seq<char>| #[trigger]
            dag_tools::dag_status(l).field(key) is Some ==> key == "completion_pct"@ || key
                == "in_progress_id"@ || key == "is_all_terminal"@ || key == "tasks"@,
{
    reveal_with_fuel(json::fields_map, 6);
    reveal_strlit("completion_pct");
    reveal_strlit("in_progress_id");
    reveal_strlit("is_all_terminal");
    reveal_strlit("tasks");
    assert("completion_pct"@[0] == 'c');
    assert("in_progress_id"@[0] == 'i');
    assert("completion_pct"@.len() == 14);
    assert("in_progress_id"@.len() == 14);
    assert("is_all_terminal"@.len() == 15);
    assert("tasks"@.len() == 5);
    let tasks = l.items.map_values(|it: TodoItemView| dag_tools::task_status(it));
    assert(dag_tools::dag_status(l).field("tasks"@) == Some(Json::Array(tasks)));
    assert forall|i: int| 0 <= i < tasks.len() implies {
        &&& (#[trigger] tasks[i]).field("id"@) == Some(Json::Int(l.items[i].id as int))
        &&& tasks[i].field("content"@) == Some(Json::Text(l.items[i].content))
        &&& tasks[i].field("status"@) == Some(
            Json::Text(status::status_word(l.items[i].status)),
        )
        &&& tasks[i].field("depends_on"@) is Some
        &&& tasks[i].field("depends_on"@)->0.ids() == Some(l.items[i].depends_on)
        &&& l.items[i].error is Some ==> tasks[i].field("error"@) == Some(
            Json::Text(l.items[i].error->0),
        )
        &&& l.items[i].error is None ==> tasks[i].field("error"@) == Some(Json::Null)
    } by {
        law_task_status(l.items[i]);
    }
}

/// The names of the fields of schemas differ.
proof fn lemma_schema_names()
    ensures
        "type"@ != "description"@,
        "type"@ != "enum"@,
        "type"@ != "properties"@,
        "type"@ != "required"@,
        "type"@ != "items"@,
        "description"@ != "enum"@,
        "description"@ != "items"@,
        "properties"@ != "required"@,
{
    reveal_strlit("type");
    reveal_strlit("description");
    reveal_strlit("enum");
    reveal_strlit("properties");
    reveal_strlit("required");
    reveal_strlit("items");
    assert("type"@.len() == 4);
    assert("type"@[0] == 't');
    assert("enum"@[0] == 'e');
    assert("description"@.len() == 11);
    assert("properties"@.len() == 10);
    assert("required"@.len() == 8);
    assert("items"@.len() == 5);
}

/// The schema of a value tells its type, what it is for, and, where they are
/// limited, the words it can be or what its elements are.
pub proof fn law_value_schemas(d: Seq<char>, words: Seq<Seq<char>>, items: Json)
    ensures
        schema::text_schema(d).field("type"@) == Some(Json::Text("string"@)),
        schema::text_schema(d).field("description"@) == Some(Json::Text(d)),
        schema::integer_schema(d).field("type"@) == Some(Json::Text("integer"@)),
        schema::integer_schema(d).field("description"@) == Some(Json::Text(d)),
        schema::plain_integer_schema().field("type"@) == Some(Json::Text("integer"@)),
        schema::word_schema(words, d).field("type"@) == Some(Json::Text("string"@)),
        schema::word_schema(words, d).field("description"@) == Some(Json::Text(d)),
        schema::word_schema(words, d).field("enum"@) matches Some(Json::Array(s)) && s.len()
            == words.len() && forall|i: int|
            0 <= i < words.len() ==> (#[trigger] s[i]) == Json::Text(words[i]),
        schema::array_schema(d, items).field("type"@) == Some(Json::Text("array"@)),
        schema::array_schema(d, items).field("description"@) == Some(Json::Text(d)),
        schema::array_schema(d, items).field("items"@) == Some(items),
{
    reveal_with_fuel(json::fields_map, 5);
    lemma_schema_names();
    law_shown_values(None, None, words, Seq::empty());
}

/// The schema of an object tells each of its properties, and in their order those
/// that are required; one without properties has none.
pub proof fn law_object_schemas(
    properties: Seq<(Seq<char>, Json)>,
    required: Seq<Seq<char>>,
    key: Seq<char>,
)
    ensures
        ({
            let s = schema::object_schema(properties, required);
            &&& s.field("type"@) == Some(Json::Text("object"@))
            &&& s.field("properties"@) is Some
            &&& forall|i: int|
                0 <= i < properties.len() && (#[trigger] properties[i]).0 == key && (forall|k: int|
                    i < k < properties.len() ==> (#[trigger] properties[k]).0 != key) ==> s.field(
                    "properties"@,
                )->0.field(key) == Some(properties[i].1)
            &&& (forall|i: int|
                0 <= i < properties.len() ==> (#[trigger] properties[i]).0 != key) ==> s.field(
                "properties"@,
            )->0.field(key) is None
            &&& s.field("required"@) matches Some(Json::Array(names)) && names.len()
                == required.len() && forall|i: int|
                0 <= i < required.len() ==> (#[trigger] names[i]) == Json::Text(required[i])
        }),
        schema::empty_schema().field("type"@) == Some(Json::Text("object"@)),
        schema::empty_schema().field("properties"@) is Some,
        schema::empty_schema().field("properties"@)->0 is Object,
        schema::empty_schema().field("properties"@)->0.field(key) is None,
        schema::empty_schema().field("required"@) is None,
{
    reveal_with_fuel(json::fields_map, 5);
    lemma_schema_names();
    law_shown_values(None, None, required, Seq::empty());
    assert(schema::object_schema(properties, required).field("properties"@) == Some(
        Json::object(properties),
    ));
    law_object(properties, key);
    law_object(Seq::empty(), key);
}

/// A checklist offers the words for pending, in progress and completed, an update
/// those for every status but ready, each once.
pub proof fn law_offered_words(s: TodoStatus)
    ensures
        schema::checklist_words().len() == 3,
        schema::checklist_words().contains(status::status_word(s)) <==> s == TodoStatus::Pending
            || s == TodoStatus::InProgress || s == TodoStatus::Completed,
        schema::update_words().len() == 5,
        schema::update_words().contains(status::status_word(s)) <==> s != TodoStatus::Ready,
{
    law_known_words(status::status_word(s), s, TodoStatus::Pending);
    law_known_words(status::status_word(s), s, TodoStatus::InProgress);
    law_known_words(status::status_word(s), s, TodoStatus::Completed);
    law_known_words(status::status_word(s), s, TodoStatus::Failed);
    law_known_words(status::status_word(s), s, TodoStatus::Skipped);
    let c = schema::checklist_words();
    let u = schema::update_words();
    assert(c[0] == status::status_word(TodoStatus::Pending));
    assert(c[1] == status::status_word(TodoStatus::InProgress));
    assert(c[2] == status::status_word(TodoStatus::Completed));
    assert(u[0] == status::status_word(TodoStatus::Pending));
    assert(u[1] == status::status_word(TodoStatus::InProgress));
    assert(u[2] == status::status_word(TodoStatus::Completed));
    assert(u[3] == status::status_word(TodoStatus::Failed));
    assert(u[4] == status::status_word(TodoStatus::Skipped));
}

/// The contents of documents, and of named documents, are those of each, in its
/// place.
pub proof fn law_document_values(vs: Seq<Value>, fields: Seq<(String, Value)>)
    ensures
        json::json_views(vs).len() == vs.len(),
        forall|j: int|
            0 <= j < vs.len() ==> #[trigger] json::json_views(vs)[j] == json::json_view(vs[j]),
        json::field_views(fields).len() == fields.len(),
        forall|j: int|
            0 <= j < fields.len() ==> (#[trigger] json::field_views(fields)[j]).0
                == fields[j].0@ && json::field_views(fields)[j].1 == json::json_view(fields[j].1),
{
}

/// The values of a result and of an error show each of their fields.
pub proof fn law_result_value(r: ToolResult, e: ToolError)
    ensures
        r@.success == r.success,
        r@.content == r.content@,
        r.metadata is None <==> r@.metadata is None,
        r.metadata is Some ==> r@.metadata == Some(json::json_view(r.metadata->0)),
        e@ == e->message@,
{
}

} // verus!
