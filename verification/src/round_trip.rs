//! The request document is the API's own request body: what is read from one is what is
//! written back, so a document written for `curl` is sent unchanged, key for key.

use vstd::prelude::*;

use crate::json::{lookup, JsonValue};
use crate::wire::{
    criteria_json, document_of, first_unknown, key_allowed, kind_of, lemma_kind_name_round_trip,
    question_json, question_of, questions_json, questions_of, request_json, CriteriaView,
    DocumentView, Fault, KeySet, QuestionKind, QuestionView, RequestView,
};

verus! {

/// Two objects hold the same entries: every key looks up the same value in both, whatever
/// order they are held in.
pub open spec fn same_entries(a: Seq<(Seq<char>, JsonValue)>, b: Seq<(Seq<char>, JsonValue)>) -> bool {
    forall|k: Seq<char>| #[trigger] lookup(a, k) == lookup(b, k)
}

/// A key no entry has looks up nothing.
proof fn lemma_lookup_absent(map: Seq<(Seq<char>, JsonValue)>, key: Seq<char>)
    requires
        forall|i: int| 0 <= i < map.len() ==> #[trigger] map[i].0 != key,
    ensures
        lookup(map, key) is None,
    decreases map.len(),
{
    if map.len() > 0 {
        assert(map[0].0 != key);
        assert forall|i: int| 0 <= i < map.drop_first().len() implies #[trigger] map.drop_first()[i].0
            != key by {
            assert(map.drop_first()[i] == map[i + 1]);
        }
        lemma_lookup_absent(map.drop_first(), key);
    }
}

/// When no key is unknown to the set, every key belongs to it.
proof fn lemma_no_unknown_key(map: Seq<(Seq<char>, JsonValue)>, set: KeySet)
    requires
        first_unknown(map, set) is None,
    ensures
        forall|i: int| 0 <= i < map.len() ==> key_allowed(set, #[trigger] map[i].0),
    decreases map.len(),
{
    if map.len() > 0 {
        lemma_no_unknown_key(map.drop_last(), set);
        assert forall|i: int| 0 <= i < map.len() implies key_allowed(set, #[trigger] map[i].0) by {
            if i < map.len() - 1 {
                assert(map.drop_last()[i] == map[i]);
            }
        }
    }
}

/// A key outside the set looks up nothing in an object that holds no unknown key.
proof fn lemma_unknown_key_absent(map: Seq<(Seq<char>, JsonValue)>, set: KeySet, key: Seq<char>)
    requires
        first_unknown(map, set) is None,
        !key_allowed(set, key),
    ensures
        lookup(map, key) is None,
{
    lemma_no_unknown_key(map, set);
    assert forall|i: int| 0 <= i < map.len() implies #[trigger] map[i].0 != key by {
        assert(key_allowed(set, map[i].0));
    }
    lemma_lookup_absent(map, key);
}

/// Looking a key up in two entries.
proof fn lemma_lookup_pair(a: (Seq<char>, JsonValue), b: (Seq<char>, JsonValue), key: Seq<char>)
    ensures
        lookup(seq![a, b], key) == if a.0 == key {
            Some(a.1)
        } else if b.0 == key {
            Some(b.1)
        } else {
            None::<JsonValue>
        },
{
    let s = seq![a, b];
    let empty = Seq::<(Seq<char>, JsonValue)>::empty();
    assert(lookup(empty, key) is None);
    assert(seq![b].drop_first() =~= empty);
    assert(lookup(seq![b], key) == if b.0 == key {
        Some(b.1)
    } else {
        lookup(empty, key)
    });
    assert(s.drop_first() =~= seq![b]);
    assert(lookup(s, key) == if a.0 == key {
        Some(a.1)
    } else {
        lookup(seq![b], key)
    });
}

/// Looking a key up in three entries.
proof fn lemma_lookup_triple(
    a: (Seq<char>, JsonValue),
    b: (Seq<char>, JsonValue),
    c: (Seq<char>, JsonValue),
    key: Seq<char>,
)
    ensures
        lookup(seq![a, b, c], key) == if a.0 == key {
            Some(a.1)
        } else if b.0 == key {
            Some(b.1)
        } else if c.0 == key {
            Some(c.1)
        } else {
            None::<JsonValue>
        },
{
    let s = seq![a, b, c];
    assert(s.drop_first() =~= seq![b, c]);
    lemma_lookup_pair(b, c, key);
    assert(lookup(s, key) == if a.0 == key {
        Some(a.1)
    } else {
        lookup(seq![b, c], key)
    });
}

/// The three keys of a question are three different keys.
proof fn lemma_question_keys_differ()
    ensures
        "type"@ != "instructions"@,
        "type"@ != "criteria"@,
        "instructions"@ != "criteria"@,
{
    reveal_strlit("type");
    reveal_strlit("instructions");
    reveal_strlit("criteria");
    assert("type"@.len() != "instructions"@.len());
    assert("type"@.len() != "criteria"@.len());
    assert("instructions"@.len() != "criteria"@.len());
}

/// The three keys of a request are three different keys.
proof fn lemma_request_keys_differ()
    ensures
        "state"@ != "model"@,
        "state"@ != "questions"@,
        "model"@ != "questions"@,
{
    reveal_strlit("state");
    reveal_strlit("model");
    reveal_strlit("questions");
    assert("state"@.len() != "questions"@.len());
    assert("model"@.len() != "questions"@.len());
    assert("state"@[0] != "model"@[0]);
}

/// A question read from a document is written back with the same entries: its type, its
/// instructions, and its criteria when it had any, and nothing else.
pub proof fn lemma_question_round_trip(value: JsonValue)
    requires
        question_of(value) is Ok,
    ensures
        value is Object,
        question_json(question_of(value)->Ok_0) is Object,
        same_entries(question_json(question_of(value)->Ok_0)->Object_0, value->Object_0),
{
    let q = question_of(value)->Ok_0;
    let map = value->Object_0;
    let out = question_json(q)->Object_0;
    lemma_question_keys_differ();
    let type_entry = ("type"@, JsonValue::String(q.kind.name()));
    let instructions_entry = ("instructions"@, q.instructions);
    match kind_of(lookup(map, "type"@)) {
        Ok(kind) => {
            if let Some(JsonValue::String(name)) = lookup(map, "type"@) {
                lemma_kind_name_round_trip(kind, name);
            }
        },
        Err(_) => {},
    }
    assert(lookup(map, "type"@) == Some(JsonValue::String(q.kind.name())));
    assert(lookup(map, "instructions"@) == Some(q.instructions));
    assert forall|k: Seq<char>| #[trigger] lookup(out, k) == lookup(map, k) by {
        match q.criteria {
            Some(c) => {
                assert(out =~= seq![type_entry, instructions_entry, ("criteria"@, criteria_json(c))]);
                lemma_lookup_triple(type_entry, instructions_entry, ("criteria"@, criteria_json(c)), k);
                assert(lookup(map, "criteria"@) == Some(criteria_json(c)));
            },
            None => {
                assert(out =~= seq![type_entry, instructions_entry]);
                lemma_lookup_pair(type_entry, instructions_entry, k);
                assert(lookup(map, "criteria"@) is None);
            },
        }
        if k != "type"@ && k != "instructions"@ && k != "criteria"@ {
            lemma_unknown_key_absent(map, KeySet::Question, k);
        }
    }
}

/// The questions a document's `questions` object holds are its entries, one for one, in
/// order, each read as a question.
proof fn lemma_questions_pointwise(map: Seq<(Seq<char>, JsonValue)>)
    requires
        questions_of(map) is Ok,
    ensures
        questions_of(map)->Ok_0.len() == map.len(),
        forall|i: int|
            0 <= i < map.len() ==> (#[trigger] questions_of(map)->Ok_0[i]).0 == map[i].0
                && question_of(map[i].1) == Ok::<_, Seq<char>>(questions_of(map)->Ok_0[i].1),
    decreases map.len(),
{
    if map.len() > 0 {
        lemma_questions_pointwise(map.drop_last());
        let prior = questions_of(map.drop_last())->Ok_0;
        let all = questions_of(map)->Ok_0;
        assert forall|i: int| 0 <= i < map.len() implies (#[trigger] all[i]).0 == map[i].0
            && question_of(map[i].1) == Ok::<_, Seq<char>>(all[i].1) by {
            if i < map.len() - 1 {
                assert(all[i] == prior[i]);
                assert(map.drop_last()[i] == map[i]);
            }
        }
    }
}

/// A request document that names its state and its model is sent as written: the request
/// body holds the document's state and model, the same question ids in the same order, and
/// each question with the same entries it was written with. No other key is sent, and the
/// document could hold no other.
pub proof fn lemma_document_round_trip(value: JsonValue)
    requires
        document_of(value) is Ok,
        document_of(value)->Ok_0.state is Some,
        document_of(value)->Ok_0.model is Some,
    ensures
        value is Object,
        ({
            let d = document_of(value)->Ok_0;
            let map = value->Object_0;
            let sent = request_json(
                RequestView {
                    state: d.state->Some_0,
                    model: d.model->Some_0,
                    questions: d.questions,
                },
            )->Object_0;
            let written = questions_json(d.questions);
            &&& forall|k: Seq<char>| k != "questions"@ ==> #[trigger] lookup(sent, k) == lookup(map, k)
            &&& lookup(sent, "questions"@) == Some(JsonValue::Object(written))
            &&& lookup(map, "questions"@) matches Some(JsonValue::Object(asked)) && {
                &&& written.len() == asked.len()
                &&& forall|i: int|
                    0 <= i < asked.len() ==> (#[trigger] written[i]).0 == asked[i].0
                        && written[i].1 is Object && asked[i].1 is Object && same_entries(
                        written[i].1->Object_0,
                        asked[i].1->Object_0,
                    )
            }
        }),
{
    let d = document_of(value)->Ok_0;
    let map = value->Object_0;
    let request = RequestView { state: d.state->Some_0, model: d.model->Some_0, questions: d.questions };
    let written = questions_json(d.questions);
    lemma_request_keys_differ();
    lemma_lookup_triple(
        ("state"@, request.state),
        ("model"@, JsonValue::String(request.model)),
        ("questions"@, JsonValue::Object(written)),
        "questions"@,
    );
    assert forall|k: Seq<char>| k != "questions"@ implies #[trigger] lookup(
        request_json(request)->Object_0,
        k,
    ) == lookup(map, k) by {
        lemma_lookup_triple(
            ("state"@, request.state),
            ("model"@, JsonValue::String(request.model)),
            ("questions"@, JsonValue::Object(written)),
            k,
        );
        if k != "state"@ && k != "model"@ {
            lemma_unknown_key_absent(map, KeySet::Request, k);
        }
    }
    let asked = lookup(map, "questions"@)->Some_0->Object_0;
    lemma_questions_pointwise(asked);
    assert forall|i: int| 0 <= i < asked.len() implies (#[trigger] written[i]).0 == asked[i].0
        && written[i].1 is Object && asked[i].1 is Object && same_entries(
        written[i].1->Object_0,
        asked[i].1->Object_0,
    ) by {
        lemma_question_round_trip(asked[i].1);
    }
}

/// Whether a question's criteria have the shape its type gives them: a noul's are absent
/// or an object, a choice's an object, and a score's an array. Every question read from a
/// document, and every one the shorthand subcommands build, has this shape.
pub open spec fn shaped(q: QuestionView) -> bool {
    match (q.kind, q.criteria) {
        (QuestionKind::Noul, None) => true,
        (QuestionKind::Noul, Some(CriteriaView::Noul(_))) => true,
        (QuestionKind::Choice, Some(CriteriaView::Choice(_))) => true,
        (QuestionKind::Score, Some(CriteriaView::Score(_))) => true,
        _ => false,
    }
}

/// Every question read from a document has criteria of its type's shape.
pub proof fn lemma_read_question_is_shaped(value: JsonValue)
    requires
        question_of(value) is Ok,
    ensures
        shaped(question_of(value)->Ok_0),
{
}

/// Entries whose keys all belong to the set hold no unknown key.
proof fn lemma_known_keys(map: Seq<(Seq<char>, JsonValue)>, set: KeySet)
    requires
        forall|i: int| 0 <= i < map.len() ==> key_allowed(set, #[trigger] map[i].0),
    ensures
        first_unknown(map, set) is None,
    decreases map.len(),
{
    if map.len() > 0 {
        assert forall|i: int| 0 <= i < map.drop_last().len() implies key_allowed(
            set,
            #[trigger] map.drop_last()[i].0,
        ) by {
            assert(map.drop_last()[i] == map[i]);
        }
        lemma_known_keys(map.drop_last(), set);
        assert(key_allowed(set, map[map.len() - 1].0));
    }
}

/// A question written out reads back as the same question.
pub proof fn lemma_question_reads_back(q: QuestionView)
    requires
        shaped(q),
    ensures
        question_of(question_json(q)) == Ok::<QuestionView, Seq<char>>(q),
{
    lemma_question_keys_differ();
    let type_entry = ("type"@, JsonValue::String(q.kind.name()));
    let instructions_entry = ("instructions"@, q.instructions);
    let out = question_json(q)->Object_0;
    lemma_kind_name_round_trip(q.kind, q.kind.name());
    match q.criteria {
        Some(c) => {
            assert(out =~= seq![type_entry, instructions_entry, ("criteria"@, criteria_json(c))]);
            lemma_lookup_triple(type_entry, instructions_entry, ("criteria"@, criteria_json(c)), "type"@);
            lemma_lookup_triple(
                type_entry,
                instructions_entry,
                ("criteria"@, criteria_json(c)),
                "instructions"@,
            );
            lemma_lookup_triple(
                type_entry,
                instructions_entry,
                ("criteria"@, criteria_json(c)),
                "criteria"@,
            );
        },
        None => {
            assert(out =~= seq![type_entry, instructions_entry]);
            lemma_lookup_pair(type_entry, instructions_entry, "type"@);
            lemma_lookup_pair(type_entry, instructions_entry, "instructions"@);
            lemma_lookup_pair(type_entry, instructions_entry, "criteria"@);
        },
    }
    assert forall|i: int| 0 <= i < out.len() implies key_allowed(KeySet::Question, #[trigger] out[i].0) by {
    }
    lemma_known_keys(out, KeySet::Question);
}

/// Questions written out read back as the same questions, under the same ids, in order.
proof fn lemma_questions_read_back(questions: Seq<(Seq<char>, QuestionView)>)
    requires
        forall|i: int| 0 <= i < questions.len() ==> shaped(#[trigger] questions[i].1),
    ensures
        questions_of(questions_json(questions)) == Ok::<_, (Seq<char>, Seq<char>)>(questions),
    decreases questions.len(),
{
    if questions.len() > 0 {
        let prior = questions.drop_last();
        assert forall|i: int| 0 <= i < prior.len() implies shaped(#[trigger] prior[i].1) by {
            assert(prior[i] == questions[i]);
        }
        lemma_questions_read_back(prior);
        assert(questions_json(questions).drop_last() =~= questions_json(prior));
        lemma_question_reads_back(questions.last().1);
        assert(shaped(questions[questions.len() - 1].1));
        let json = questions_json(questions);
        assert(json.last() == (questions.last().0, question_json(questions.last().1)));
        assert(prior.push(questions.last()) =~= questions);
    } else {
        assert(questions_json(questions) =~= Seq::<(Seq<char>, JsonValue)>::empty());
        assert(questions =~= Seq::<(Seq<char>, QuestionView)>::empty());
    }
}

/// A request that asks at least one question, each with criteria of its type's shape,
/// reads back from its own body as a document with the same state, model, and questions:
/// what `--dry-run` prints is a document `ask` accepts as it stands.
pub proof fn lemma_request_reads_back(request: RequestView)
    requires
        request.questions.len() > 0,
        forall|i: int| 0 <= i < request.questions.len() ==> shaped(#[trigger] request.questions[i].1),
    ensures
        document_of(request_json(request)) == Ok::<DocumentView, Fault>(
            DocumentView {
                state: Some(request.state),
                model: Some(request.model),
                questions: request.questions,
            },
        ),
{
    lemma_request_keys_differ();
    let written = questions_json(request.questions);
    let entries = seq![
        ("state"@, request.state),
        ("model"@, JsonValue::String(request.model)),
        ("questions"@, JsonValue::Object(written)),
    ];
    assert(request_json(request)->Object_0 =~= entries);
    lemma_lookup_triple(entries[0], entries[1], entries[2], "state"@);
    lemma_lookup_triple(entries[0], entries[1], entries[2], "model"@);
    lemma_lookup_triple(entries[0], entries[1], entries[2], "questions"@);
    assert forall|i: int| 0 <= i < entries.len() implies key_allowed(KeySet::Request, #[trigger] entries[i].0) by {
    }
    lemma_known_keys(entries, KeySet::Request);
    lemma_questions_read_back(request.questions);
    assert(written.len() == request.questions.len());
}

} // verus!
