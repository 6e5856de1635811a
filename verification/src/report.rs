//! What comes back: the path selection of `--select`, `--value`, and `--field`, and the
//! rendering of a value to the text stdout carries.
//!
//! - **`--select`** walks a dotted path from the response root. A path that is not there is
//!   a caller error to name rather than a crash.
//! - **Rendering** prints a scalar raw and a composite as JSON.
//! - Nothing here touches a stream; `run` writes the text once, at the end.

use vstd::prelude::*;

use crate::error::DecideError;
use crate::json::{
    kind_words, lemma_entries_view_index, lemma_items_view_index, lookup, number_u64,
    parse_u64, entries_view, items_view, json_text, value_get, write_compact, write_pretty, Json,
    JsonValue,
};
use crate::text::{decimal, decimal_text, find_char, join2, join3, owned, quote, quoted, same};
use crate::wire::{answers_view, Answer, AnswerView, Request, Response};

verus! {

/// The segments of a dotted path, split on every `.` as `str::split('.')` splits it.
pub open spec fn split_dots(path: Seq<char>) -> Seq<Seq<char>>
    decreases path.len(),
{
    if path.len() == 0 {
        seq![Seq::empty()]
    } else {
        let rest = split_dots(path.drop_first());
        if path[0] == '.' {
            seq![Seq::empty()] + rest
        } else {
            rest.update(0, seq![path[0]] + rest[0])
        }
    }
}

/// A split always has at least one segment.
proof fn lemma_split_nonempty(path: Seq<char>)
    ensures
        split_dots(path).len() >= 1,
    decreases path.len(),
{
    if path.len() > 0 {
        lemma_split_nonempty(path.drop_first());
    }
}

/// Text without a dot is one segment.
proof fn lemma_split_no_dot(path: Seq<char>)
    requires
        forall|j: int| 0 <= j < path.len() ==> path[j] != '.',
    ensures
        split_dots(path) == seq![path],
    decreases path.len(),
{
    if path.len() > 0 {
        lemma_split_no_dot(path.drop_first());
        assert(seq![path[0]] + path.drop_first() =~= path);
        assert(seq![path.drop_first()].update(0, seq![path[0]] + path.drop_first()) =~= seq![path]);
    } else {
        assert(path =~= Seq::<char>::empty());
    }
}

/// The first dot splits off the first segment.
proof fn lemma_split_first_dot(path: Seq<char>, i: int)
    requires
        0 <= i < path.len(),
        path[i] == '.',
        forall|j: int| 0 <= j < i ==> path[j] != '.',
    ensures
        split_dots(path) == seq![path.subrange(0, i)] + split_dots(
            path.subrange(i + 1, path.len() as int),
        ),
    decreases i,
{
    if i == 0 {
        assert(path.drop_first() =~= path.subrange(1, path.len() as int));
        assert(path.subrange(0, 0) =~= Seq::<char>::empty());
    } else {
        let tail = path.drop_first();
        lemma_split_first_dot(tail, i - 1);
        assert(tail.subrange(i, tail.len() as int) =~= path.subrange(i + 1, path.len() as int));
        assert(seq![path[0]] + tail.subrange(0, i - 1) =~= path.subrange(0, i));
        let rest = split_dots(tail);
        assert(rest[0] == tail.subrange(0, i - 1));
        assert(rest.update(0, seq![path[0]] + rest[0]) =~= seq![path.subrange(0, i)]
            + split_dots(path.subrange(i + 1, path.len() as int)));
    }
}

/// `parts` with `separator` between each two.
pub open spec fn join_with(parts: Seq<Seq<char>>, separator: Seq<char>) -> Seq<char>
    decreases parts.len(),
{
    if parts.len() == 0 {
        Seq::empty()
    } else if parts.len() == 1 {
        parts[0]
    } else {
        join_with(parts.drop_last(), separator) + separator + parts.last()
    }
}

/// The words for where a path walk had got to: the response root, or the prefix so far.
pub open spec fn walked_words(walked: Seq<Seq<char>>) -> Seq<char> {
    if walked.len() == 0 {
        "the response root"@
    } else {
        quoted(join_with(walked, "."@))
    }
}

/// The keys available at a path segment, quoted, for a message that has to list them.
pub open spec fn keys_words(map: Seq<(Seq<char>, JsonValue)>) -> Seq<char> {
    if map.len() == 0 {
        "none"@
    } else {
        join_with(map.map_values(|e: (Seq<char>, JsonValue)| quoted(e.0)), ", "@)
    }
}

/// The index a segment names, as `usize`'s parse reads one: an optional `+`, then
/// digits, and small enough.
pub open spec fn index_value(segment: Seq<char>) -> Option<usize> {
    let digits = if segment.len() > 0 && segment[0] == '+' {
        segment.drop_first()
    } else {
        segment
    };
    match number_u64(digits) {
        Some(n) => if n <= usize::MAX {
            Some(n as usize)
        } else {
            None
        },
        None => None,
    }
}

/// Walk `segments` from `current`, having walked `walked` already: the value reached, or
/// the problem with the segment that failed.
pub open spec fn walk_from(
    current: JsonValue,
    segments: Seq<Seq<char>>,
    walked: Seq<Seq<char>>,
) -> Result<JsonValue, Seq<char>>
    decreases segments.len(),
{
    if segments.len() == 0 {
        Ok(current)
    } else {
        let segment = segments[0];
        match current {
            JsonValue::Object(map) => match lookup(map, segment) {
                Some(next) => walk_from(next, segments.drop_first(), walked.push(segment)),
                None => Err(
                    "no key "@ + quoted(segment) + " at "@ + walked_words(walked)
                        + "; available keys: "@ + keys_words(map),
                ),
            },
            JsonValue::Array(items) => match index_value(segment) {
                None => Err(
                    "no index "@ + quoted(segment) + " at "@ + walked_words(walked)
                        + "; an array is walked by index, not by key"@,
                ),
                Some(index) => if index < items.len() {
                    walk_from(items[index as int], segments.drop_first(), walked.push(segment))
                } else {
                    Err(
                        "no index "@ + decimal_text(index as nat) + " at "@ + walked_words(walked)
                            + "; the array has "@ + decimal_text(items.len()) + " entries"@,
                    )
                },
            },
            other => Err(
                walked_words(walked) + " is "@ + kind_words(other)
                    + ", not an object or an array"@,
            ),
        }
    }
}

/// Where a dotted path leads from `root`, or the problem that stops it.
pub open spec fn walk_path(root: JsonValue, path: Seq<char>) -> Result<JsonValue, Seq<char>> {
    if path.len() == 0 {
        Err("the path is empty"@)
    } else {
        walk_from(root, split_dots(path), Seq::empty())
    }
}

/// Whether `e` is the path error `flag` reports for `path` with `problem`.
pub open spec fn is_path_error(
    e: DecideError,
    flag: Seq<char>,
    path: Seq<char>,
    problem: Seq<char>,
) -> bool {
    e matches DecideError::PathNotFound { flag: f, path: p, problem: q } && f@ == flag && p@
        == path && q@ == problem
}

/// The segments of a dotted path.
pub fn split_path(path: &str) -> (r: Vec<String>)
    ensures
        r@.map_values(|s: String| s@) == split_dots(path@),
{
    let mut segments: Vec<String> = Vec::new();
    let mut rest: &str = path;
    assert(segments@.map_values(|s: String| s@) =~= Seq::<Seq<char>>::empty());
    loop
        invariant
            segments@.map_values(|s: String| s@) + split_dots(rest@) == split_dots(path@),
        decreases rest@.len(),
    {
        match find_char(rest, '.') {
            Some(i) => {
                let length = rest.unicode_len();
                let head = rest.substring_char(0, i);
                let tail = rest.substring_char(i + 1, length);
                proof {
                    lemma_split_first_dot(rest@, i as int);
                }
                let ghost before = segments@;
                segments.push(owned(head));
                assert(segments@.map_values(|s: String| s@) =~= before.map_values(
                    |s: String| s@,
                ).push(head@));
                assert(split_dots(rest@) == seq![head@] + split_dots(tail@));
                assert(before.map_values(|s: String| s@).push(head@) + split_dots(tail@)
                    =~= before.map_values(|s: String| s@) + (seq![head@] + split_dots(tail@)));
                rest = tail;
            },
            None => {
                let ghost before = segments@;
                segments.push(owned(rest));
                assert(segments@.map_values(|s: String| s@) =~= before.map_values(
                    |s: String| s@,
                ).push(rest@));
                proof {
                    lemma_split_no_dot(rest@);
                }
                assert(before.map_values(|s: String| s@) + seq![rest@] =~= segments@.map_values(
                    |s: String| s@,
                ));
                return segments;
            },
        }
    }
}


/// The index a segment names, read as `usize`'s parse reads one.
pub fn parse_index(segment: &str) -> (r: Option<usize>)
    ensures
        r == index_value(segment@),
{
    proof {
        reveal_strlit("+");
    }
    let length = segment.unicode_len();
    let digits = if length > 0 && segment.get_char(0) == '+' {
        segment.substring_char(1, length)
    } else {
        segment
    };
    assert(segment@.len() > 0 && segment@[0] == '+' ==> digits@ =~= segment@.drop_first());
    match parse_u64(digits) {
        Some(n) => if n <= usize::MAX as u64 {
            Some(n as usize)
        } else {
            None
        },
        None => None,
    }
}

/// `parts` joined with `separator` between each two.
fn join_parts(parts: &Vec<String>, separator: &str) -> (r: String)
    ensures
        r@ == join_with(parts@.map_values(|s: String| s@), separator@),
{
    let ghost view = parts@.map_values(|s: String| s@);
    let mut out = String::new();
    let mut i: usize = 0;
    assert(view.subrange(0, 0) =~= Seq::<Seq<char>>::empty());
    while i < parts.len()
        invariant
            i <= parts@.len(),
            view == parts@.map_values(|s: String| s@),
            out@ == join_with(view.subrange(0, i as int), separator@),
        decreases parts@.len() - i,
    {
        assert(view.subrange(0, i + 1).drop_last() =~= view.subrange(0, i as int));
        assert(view.subrange(0, i + 1).last() == parts@[i as int]@);
        if i > 0 {
            out.append(separator);
        } else {
            assert(view.subrange(0, 1) =~= seq![parts@[0]@]);
            assert(out@ =~= Seq::<char>::empty());
        }
        out.append(parts[i].as_str());
        i = i + 1;
    }
    assert(view.subrange(0, parts@.len() as int) =~= view);
    out
}

/// The words for where a path walk had got to.
fn walked_text(walked: &Vec<String>) -> (r: String)
    ensures
        r@ == walked_words(walked@.map_values(|s: String| s@)),
{
    if walked.len() == 0 {
        owned("the response root")
    } else {
        quote(join_parts(walked, ".").as_str())
    }
}

/// The keys of an object, quoted and listed.
fn keys_text(map: &Vec<(String, Json)>) -> (r: String)
    ensures
        r@ == keys_words(entries_view(map@)),
{
    proof {
        lemma_entries_view_index(map@);
    }
    if map.len() == 0 {
        return owned("none");
    }
    let mut quoted_keys: Vec<String> = Vec::new();
    let mut i: usize = 0;
    while i < map.len()
        invariant
            i <= map@.len(),
            entries_view(map@).len() == map@.len(),
            forall|k: int| 0 <= k < map@.len() ==> #[trigger] entries_view(map@)[k] == (map@[k].0@, map@[k].1@),
            quoted_keys@.map_values(|s: String| s@) =~= entries_view(map@).subrange(0, i as int).map_values(
                |e: (Seq<char>, JsonValue)| quoted(e.0),
            ),
        decreases map@.len() - i,
    {
        let ghost before = quoted_keys@;
        quoted_keys.push(quote(map[i].0.as_str()));
        assert(quoted_keys@.map_values(|s: String| s@) =~= before.map_values(|s: String| s@).push(
            quoted(map@[i as int].0@),
        ));
        i = i + 1;
    }
    assert(entries_view(map@).subrange(0, map@.len() as int) =~= entries_view(map@));
    join_parts(&quoted_keys, ", ")
}

/// A path error, as `flag` reports it.
fn path_error(flag: &'static str, path: &str, problem: String) -> (r: DecideError)
    ensures
        is_path_error(r, flag@, path@, problem@),
{
    DecideError::PathNotFound { flag, path: owned(path), problem }
}

/// Walk a dotted path from `root`, naming `flag` in any error.
///
/// A segment walks into an object as a key or into an array as an index. On an object a
/// numeric segment *is* the key, which is how `--field legend.2` finds the level numbered
/// `2`.
pub fn walk<'a>(root: &'a Json, path: &str, flag: &'static str) -> (r: Result<&'a Json, DecideError>)
    ensures
        match walk_path(root@, path@) {
            Ok(value) => r matches Ok(v) && v@ == value,
            Err(problem) => r matches Err(e) && is_path_error(e, flag@, path@, problem),
        },
{
    if path.unicode_len() == 0 {
        return Err(path_error(flag, path, owned("the path is empty")));
    }
    let segments = split_path(path);
    let ghost all = segments@.map_values(|s: String| s@);
    let mut current: &'a Json = root;
    let mut walked: Vec<String> = Vec::new();
    let mut i: usize = 0;
    assert(all.skip(0) =~= all);
    assert(walked@.map_values(|s: String| s@) =~= Seq::<Seq<char>>::empty());
    while i < segments.len()
        invariant
            i <= segments@.len(),
            all == segments@.map_values(|s: String| s@),
            all == split_dots(path@),
            path@.len() > 0,
            walked@.map_values(|s: String| s@) == all.subrange(0, i as int),
            walk_from(root@, all, Seq::empty()) == walk_from(
                current@,
                all.skip(i as int),
                walked@.map_values(|s: String| s@),
            ),
        decreases segments@.len() - i,
    {
        let segment = &segments[i];
        let ghost done = walked@.map_values(|s: String| s@);
        assert(all.skip(i as int)[0] == segment@);
        assert(all.skip(i as int).drop_first() =~= all.skip(i + 1));
        let next: &'a Json = match current {
            Json::Object(map) => match current.get(segment.as_str()) {
                Some(next) => next,
                None => {
                    let head = join3("no key ", quote(segment.as_str()).as_str(), " at ");
                    let tail = join3(
                        walked_text(&walked).as_str(),
                        "; available keys: ",
                        keys_text(map).as_str(),
                    );
                    let problem = join2(head.as_str(), tail.as_str());
                    assert(problem@ =~= "no key "@ + quoted(segment@) + " at "@ + walked_words(done)
                        + "; available keys: "@ + keys_words(entries_view(map@)));
                    return Err(path_error(flag, path, problem));
                },
            },
            Json::Array(items) => {
                proof {
                    lemma_items_view_index(items@);
                }
                match parse_index(segment.as_str()) {
                    None => {
                        let head = join3("no index ", quote(segment.as_str()).as_str(), " at ");
                        let problem = join3(
                            head.as_str(),
                            walked_text(&walked).as_str(),
                            "; an array is walked by index, not by key",
                        );
                        return Err(path_error(flag, path, problem));
                    },
                    Some(index) => {
                        if index < items.len() {
                            &items[index]
                        } else {
                            let head = join3(
                                "no index ",
                                decimal(index as u64).as_str(),
                                " at ",
                            );
                            let tail = join3(
                                walked_text(&walked).as_str(),
                                "; the array has ",
                                join2(decimal(items.len() as u64).as_str(), " entries").as_str(),
                            );
                            let problem = join2(head.as_str(), tail.as_str());
                            assert(problem@ =~= "no index "@ + decimal_text(index as nat) + " at "@
                                + walked_words(done) + "; the array has "@ + decimal_text(
                                items@.len(),
                            ) + " entries"@);
                            return Err(path_error(flag, path, problem));
                        }
                    },
                }
            },
            other => {
                let problem = join3(
                    walked_text(&walked).as_str(),
                    " is ",
                    join2(kind_words_text(other), ", not an object or an array").as_str(),
                );
                assert(problem@ =~= walked_words(done) + " is "@ + kind_words(other@)
                    + ", not an object or an array"@);
                return Err(path_error(flag, path, problem));
            },
        };
        let ghost before = walked@;
        walked.push(segment.clone());
        assert(walked@.map_values(|s: String| s@) =~= before.map_values(|s: String| s@).push(
            segment@,
        ));
        assert(all.subrange(0, i + 1) =~= all.subrange(0, i as int).push(segment@));
        current = next;
        i = i + 1;
    }
    assert(all.skip(segments@.len() as int) =~= Seq::<Seq<char>>::empty());
    Ok(current)
}

/// The words for a value's kind.
fn kind_words_text(value: &Json) -> (r: &'static str)
    ensures
        r@ == kind_words(value@),
{
    crate::json::json_kind(value)
}

/// Resolve a dotted path from the response root, for `--select`.
pub fn select<'a>(root: &'a Json, path: &str) -> (r: Result<&'a Json, DecideError>)
    ensures
        match walk_path(root@, path@) {
            Ok(value) => r matches Ok(v) && v@ == value,
            Err(problem) => r matches Err(e) && is_path_error(e, "--select"@, path@, problem),
        },
{
    walk(root, path, "--select")
}


/// The answer stored under `id`: the first one that has the id.
pub open spec fn answer_lookup(answers: Seq<(Seq<char>, AnswerView)>, id: Seq<char>) -> Option<
    AnswerView,
>
    decreases answers.len(),
{
    if answers.len() == 0 {
        None
    } else if answers[0].0 == id {
        Some(answers[0].1)
    } else {
        answer_lookup(answers.drop_first(), id)
    }
}

/// The single answer, when the request asked exactly one question.
pub fn one_answer<'a>(response: &'a Response, request: &Request, flag: &'static str) -> (r: Result<
    &'a Answer,
    DecideError,
>)
    ensures
        request@.questions.len() != 1 ==> (r matches Err(e) && e matches DecideError::OneAnswerRequired {
            flag: f,
            count,
        } && f@ == flag@ && count == request@.questions.len()),
        request@.questions.len() == 1 ==> match answer_lookup(
            response@.answers,
            request@.questions[0].0,
        ) {
            Some(answer) => r matches Ok(a) && a@ == answer,
            None => r matches Err(e) && e matches DecideError::ResponseContract { problem } && problem@
                == "there is no answer for question "@ + quoted(request@.questions[0].0),
        },
{
    let id = match request.only_question_id() {
        Some(id) => id,
        None => {
            return Err(DecideError::OneAnswerRequired { flag, count: request.question_count() });
        },
    };
    let ghost view = answers_view(response.answers@);
    let mut i: usize = 0;
    assert(view.skip(0) =~= view);
    while i < response.answers.len()
        invariant
            i <= response.answers@.len(),
            view == answers_view(response.answers@),
            view == response@.answers,
            request@.questions.len() == 1,
            id@ == request@.questions[0].0,
            answer_lookup(view, id@) == answer_lookup(view.skip(i as int), id@),
        decreases response.answers@.len() - i,
    {
        assert(view.skip(i as int).drop_first() =~= view.skip(i + 1));
        assert(view.skip(i as int)[0] == view[i as int]);
        if same(response.answers[i].0.as_str(), id) {
            return Ok(&response.answers[i].1);
        }
        i = i + 1;
    }
    Err(
        DecideError::ResponseContract {
            problem: join2("there is no answer for question ", quote(id).as_str()),
        },
    )
}

/// The one answer's own value, for `--value`.
pub fn answer_value(answer: &Answer) -> (r: Result<&Json, DecideError>)
    ensures
        match value_get(answer.value@, answer.kind.name()) {
            Some(own) => r matches Ok(v) && v@ == own,
            None => r matches Err(e) && e matches DecideError::ResponseContract { problem } && problem@
                == "the answer has no "@ + quoted(answer.kind.name()) + " for --value to print"@,
        },
{
    match answer.own_value() {
        Some(own) => Ok(own),
        None => Err(
            DecideError::ResponseContract {
                problem: join3(
                    "the answer has no ",
                    quote(answer.kind.as_str()).as_str(),
                    " for --value to print",
                ),
            },
        ),
    }
}

/// The text a scalar prints as: a string raw, with no JSON quoting, and a number, a
/// boolean, or `null` as JSON writes it. An object or an array is not a scalar.
pub open spec fn scalar_text(value: JsonValue) -> Option<Seq<char>> {
    match value {
        JsonValue::String(text) => Some(text),
        JsonValue::Number(text) => Some(text),
        JsonValue::Bool(b) => Some(
            if b {
                "true"@
            } else {
                "false"@
            },
        ),
        JsonValue::Null => Some("null"@),
        _ => None,
    }
}

/// How `--select`, `--value`, and `--field` print a value: a scalar raw, anything else as
/// JSON.
pub open spec fn value_text(value: JsonValue, pretty: bool) -> Seq<char> {
    match scalar_text(value) {
        Some(text) => text,
        None => json_text(value, pretty),
    }
}

/// Render one value the way `--select`, `--value`, and `--field` print it: a scalar raw,
/// with no JSON quoting, and an object or array as JSON.
pub fn render_value(value: &Json, pretty: bool) -> (r: String)
    ensures
        r@ == value_text(value@, pretty),
{
    match value {
        Json::String(text) => text.clone(),
        Json::Number(text) => text.clone(),
        Json::Bool(b) => owned(
            if *b {
                "true"
            } else {
                "false"
            },
        ),
        Json::Null => owned("null"),
        Json::Array(_) | Json::Object(_) => render_json(value, pretty),
    }
}

/// Render a whole JSON value, compact unless `pretty`, with its keys sorted.
pub fn render_json(value: &Json, pretty: bool) -> (r: String)
    ensures
        r@ == json_text(value@, pretty),
{
    if pretty {
        write_pretty(value)
    } else {
        write_compact(value)
    }
}

} // verus!
