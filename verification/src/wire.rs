//! The API's vocabulary: the request and response shapes, the documented limits, and
//! validation.
//!
//! The two JSON values have different authors, and therefore opposite rules:
//! [`Document::from_value`] refuses an unknown key anywhere, because the caller wrote it and
//! is in the same room as the fix; [`Response::from_value`] ignores what it does not know,
//! because the API owns that value and a deployment can gain a field at any time.

use vstd::prelude::*;

use crate::error::DecideError;
use crate::json::{
    copy_entries, copy_items, entries_view, items_view, lemma_entries_view_index,
    lemma_entries_view_push, lemma_items_view_index, json_kind, kind_words, lookup, parse_json_text, parsed_json, value_get,
    value_u64, Json, JsonValue,
};
use crate::text::{
    blank, decimal, decimal_text, is_blank, join2, join3, join5, owned, owned_opt_view, quote, quoted,
    same,
};

verus! {

/// The most options a `choice` may carry.
pub const MAX_CHOICE_OPTIONS: usize = 255;

/// The fewest levels a `score` may carry.
pub const MIN_SCORE_LEVELS: usize = 2;

/// The most levels a `score` may carry.
pub const MAX_SCORE_LEVELS: usize = 10;

/// The model a request names when neither `--model` nor the document does.
pub const DEFAULT_MODEL: &'static str = "jev-latest";

/// The API endpoint every call is built on, when nothing names another one.
///
/// It is spelled as the evaluation endpoint rather than as the bare host, because that is
/// the URL a caller reads out of the API documentation; `resolve_base_url` reduces either
/// spelling to the root the two calls are built from.
pub const DEFAULT_BASE_URL: &'static str = "https://api.typesafe.ai/v1/systemone";

/// One of the three question types.
#[derive(Debug, Clone, Copy, PartialEq, Eq, Structural)]
pub enum QuestionKind {
    /// A yes/no question, answered with the probability that the answer is yes.
    Noul,
    /// A question with a set of options to pick from.
    Choice,
    /// A question with ordered levels to rate along.
    Score,
}

impl QuestionKind {
    /// The `type` string this kind is sent and answered as.
    pub open spec fn name(self) -> Seq<char> {
        match self {
            QuestionKind::Noul => "noul"@,
            QuestionKind::Choice => "choice"@,
            QuestionKind::Score => "score"@,
        }
    }

    /// The kind a `type` string names, if it names one of the three.
    pub open spec fn named(text: Seq<char>) -> Option<QuestionKind> {
        if text == "noul"@ {
            Some(QuestionKind::Noul)
        } else if text == "choice"@ {
            Some(QuestionKind::Choice)
        } else if text == "score"@ {
            Some(QuestionKind::Score)
        } else {
            None
        }
    }

    /// The `type` string this kind is sent and answered as.
    pub fn as_str(self) -> (r: &'static str)
        ensures
            r@ == self.name(),
    {
        match self {
            QuestionKind::Noul => "noul",
            QuestionKind::Choice => "choice",
            QuestionKind::Score => "score",
        }
    }

    /// The kind a `type` string names, or `None` if it names none of the three.
    pub fn parse(value: &str) -> (r: Option<Self>)
        ensures
            r == Self::named(value@),
    {
        if same(value, "noul") {
            Some(QuestionKind::Noul)
        } else if same(value, "choice") {
            Some(QuestionKind::Choice)
        } else if same(value, "score") {
            Some(QuestionKind::Score)
        } else {
            None
        }
    }
}

/// A kind's name reads back as that kind, and nothing else reads as it.
pub proof fn lemma_kind_name_round_trip(kind: QuestionKind, text: Seq<char>)
    ensures
        QuestionKind::named(kind.name()) == Some(kind),
        QuestionKind::named(text) == Some(kind) ==> text == kind.name(),
{
    reveal_strlit("noul");
    reveal_strlit("choice");
    reveal_strlit("score");
    assert("noul"@.len() != "choice"@.len());
    assert("noul"@.len() != "score"@.len());
    assert("choice"@.len() != "score"@.len());
}

/// A question's `criteria`, which is shaped differently by each question type.
#[derive(Debug, PartialEq, Eq)]
pub enum Criteria {
    /// A noul's optional `true`/`false` descriptions.
    Noul(Vec<(String, Json)>),
    /// A choice's named options, each with its description or `null`.
    Choice(Vec<(String, Json)>),
    /// A score's ordered levels, first to last.
    Score(Vec<Json>),
}

/// What a question's criteria means.
pub enum CriteriaView {
    /// A noul's descriptions, by key.
    Noul(Seq<(Seq<char>, JsonValue)>),
    /// A choice's options, by name.
    Choice(Seq<(Seq<char>, JsonValue)>),
    /// A score's levels, in order.
    Score(Seq<JsonValue>),
}

impl View for Criteria {
    type V = CriteriaView;

    open spec fn view(&self) -> CriteriaView {
        match self {
            Criteria::Noul(map) => CriteriaView::Noul(entries_view(map@)),
            Criteria::Choice(map) => CriteriaView::Choice(entries_view(map@)),
            Criteria::Score(levels) => CriteriaView::Score(items_view(levels@)),
        }
    }
}

/// The criteria as JSON: an object of entries, or an array of levels.
pub open spec fn criteria_json(c: CriteriaView) -> JsonValue {
    match c {
        CriteriaView::Noul(map) => JsonValue::Object(map),
        CriteriaView::Choice(map) => JsonValue::Object(map),
        CriteriaView::Score(levels) => JsonValue::Array(levels),
    }
}

/// How many entries the criteria has.
pub open spec fn criteria_len(c: CriteriaView) -> nat {
    match c {
        CriteriaView::Noul(map) => map.len(),
        CriteriaView::Choice(map) => map.len(),
        CriteriaView::Score(levels) => levels.len(),
    }
}

impl Criteria {
    /// The criteria as JSON, which is what goes on the wire.
    pub fn to_value(&self) -> (r: Json)
        ensures
            r@ == criteria_json(self@),
    {
        match self {
            Criteria::Noul(map) => Json::Object(copy_entries(map)),
            Criteria::Choice(map) => Json::Object(copy_entries(map)),
            Criteria::Score(levels) => Json::Array(copy_items(levels)),
        }
    }

    /// How many entries the criteria has: the noul descriptions, the options, or the
    /// levels.
    pub fn len(&self) -> (r: usize)
        ensures
            r == criteria_len(self@),
    {
        proof {
            match self {
                Criteria::Noul(map) => lemma_entries_view_index(map@),
                Criteria::Choice(map) => lemma_entries_view_index(map@),
                Criteria::Score(levels) => lemma_items_view_index(levels@),
            }
        }
        match self {
            Criteria::Noul(map) => map.len(),
            Criteria::Choice(map) => map.len(),
            Criteria::Score(levels) => levels.len(),
        }
    }

    /// Whether there are no entries at all.
    pub fn is_empty(&self) -> (r: bool)
        ensures
            r == (criteria_len(self@) == 0),
    {
        self.len() == 0
    }
}

/// One typed question, with its instructions and its criteria.
#[derive(Debug, PartialEq, Eq)]
pub struct Question {
    /// Which of the three shapes this question takes.
    pub kind: QuestionKind,
    /// What the model is asked. A string, an object, or an array.
    pub instructions: Json,
    /// The criteria, which a `choice` and a `score` require and a `noul` may omit.
    pub criteria: Option<Criteria>,
}

/// What a question means.
pub struct QuestionView {
    /// Its type.
    pub kind: QuestionKind,
    /// Its instructions.
    pub instructions: JsonValue,
    /// Its criteria, if it has any.
    pub criteria: Option<CriteriaView>,
}

impl View for Question {
    type V = QuestionView;

    open spec fn view(&self) -> QuestionView {
        QuestionView {
            kind: self.kind,
            instructions: self.instructions@,
            criteria: match self.criteria {
                Some(c) => Some(c@),
                None => None,
            },
        }
    }
}

/// The question as JSON: its type, its instructions, and its criteria when it has any.
pub open spec fn question_json(q: QuestionView) -> JsonValue {
    let head = seq![
        ("type"@, JsonValue::String(q.kind.name())),
        ("instructions"@, q.instructions),
    ];
    JsonValue::Object(
        match q.criteria {
            Some(c) => head.push(("criteria"@, criteria_json(c))),
            None => head,
        },
    )
}

/// Where a message about question `id` says the problem is.
pub open spec fn question_location(id: Seq<char>) -> Seq<char> {
    "question "@ + quoted(id)
}

/// The text of [`question_location`].
fn question_place(id: &str) -> (r: String)
    ensures
        r@ == question_location(id@),
{
    join2("question ", quote(id).as_str())
}

/// The key sets the strict parse knows.
pub enum KeySet {
    /// The keys of a request document.
    Request,
    /// The keys of one question.
    Question,
    /// The keys of a noul's criteria.
    Noul,
}

/// Whether `key` belongs to the key set.
pub open spec fn key_allowed(set: KeySet, key: Seq<char>) -> bool {
    match set {
        KeySet::Request => key == "state"@ || key == "model"@ || key == "questions"@,
        KeySet::Question => key == "type"@ || key == "instructions"@ || key == "criteria"@,
        KeySet::Noul => key == "true"@ || key == "false"@,
    }
}

/// Whether `key` belongs to the key set.
fn allows(set: &KeySet, key: &str) -> (r: bool)
    ensures
        r == key_allowed(*set, key@),
{
    match set {
        KeySet::Request => same(key, "state") || same(key, "model") || same(key, "questions"),
        KeySet::Question => same(key, "type") || same(key, "instructions") || same(key, "criteria"),
        KeySet::Noul => same(key, "true") || same(key, "false"),
    }
}

/// The first key, in the order the entries are held, that the key set does not know.
pub open spec fn first_unknown(map: Seq<(Seq<char>, JsonValue)>, set: KeySet) -> Option<Seq<char>>
    decreases map.len(),
{
    if map.len() == 0 {
        None
    } else {
        match first_unknown(map.drop_last(), set) {
            Some(k) => Some(k),
            None => if !key_allowed(set, map.last().0) {
                Some(map.last().0)
            } else {
                None
            },
        }
    }
}

/// The problem a question's limits find, if any, as the message names it.
pub open spec fn question_problem(q: QuestionView) -> Option<Seq<char>> {
    if q.instructions matches JsonValue::String(text) && is_blank(text) {
        Some("the instruction is empty; a question with no instruction asks nothing"@)
    } else {
        match q.kind {
            QuestionKind::Noul => match q.criteria {
                None => None,
                Some(CriteriaView::Noul(map)) => match first_unknown(map, KeySet::Noul) {
                    Some(key) => Some(
                        "unknown criteria key "@ + quoted(key)
                            + "; a noul's criteria has only the keys \"true\" and \"false\""@,
                    ),
                    None => None,
                },
                Some(_) => Some("a noul's criteria is an object keyed \"true\" and \"false\""@),
            },
            QuestionKind::Choice => match q.criteria {
                Some(CriteriaView::Choice(options)) => if options.len() == 0 {
                    Some("a choice needs at least one option (none were given)"@)
                } else if options.len() > MAX_CHOICE_OPTIONS {
                    Some(
                        "a choice has at most "@ + decimal_text(MAX_CHOICE_OPTIONS as nat)
                            + " options ("@ + decimal_text(options.len()) + " were given)"@,
                    )
                } else {
                    None
                },
                _ => Some("a choice needs \"criteria\": a map of options to choose from"@),
            },
            QuestionKind::Score => match q.criteria {
                Some(CriteriaView::Score(levels)) => if levels.len() < MIN_SCORE_LEVELS {
                    Some(
                        "a score needs at least "@ + decimal_text(MIN_SCORE_LEVELS as nat)
                            + " levels ("@ + decimal_text(levels.len()) + " were given)"@,
                    )
                } else if levels.len() > MAX_SCORE_LEVELS {
                    Some(
                        "a score has at most "@ + decimal_text(MAX_SCORE_LEVELS as nat)
                            + " levels ("@ + decimal_text(levels.len()) + " were given)"@,
                    )
                } else {
                    None
                },
                _ => Some("a score needs \"criteria\": an array of levels from first to last"@),
            },
        }
    }
}

/// Whether `e` is the error that says `problem` about the place `location`.
pub open spec fn is_invalid(e: DecideError, location: Seq<char>, problem: Seq<char>) -> bool {
    e matches DecideError::Invalid { location: l, problem: p } && l@ == location && p@ == problem
}

/// An error about something in the document, located for the caller.
fn invalid(location: &str, problem: &str) -> (r: DecideError)
    ensures
        is_invalid(r, location@, problem@),
{
    DecideError::Invalid { location: owned(location), problem: owned(problem) }
}

/// `count` in decimal, for a message.
fn count_text(count: usize) -> (r: String)
    ensures
        r@ == decimal_text(count as nat),
{
    decimal(count as u64)
}

/// The first key of `map` that the key set does not know.
fn unknown_key_of<'a>(map: &'a Vec<(String, Json)>, set: KeySet) -> (r: Option<&'a String>)
    ensures
        match r {
            Some(k) => first_unknown(entries_view(map@), set) == Some(k@),
            None => first_unknown(entries_view(map@), set) is None,
        },
{
    proof {
        lemma_entries_view_index(map@);
    }
    let ghost view = entries_view(map@);
    let mut i: usize = 0;
    while i < map.len()
        invariant
            i <= map@.len(),
            view == entries_view(map@),
            view.len() == map@.len(),
            forall|k: int| 0 <= k < map@.len() ==> #[trigger] view[k] == (map@[k].0@, map@[k].1@),
            first_unknown(view.subrange(0, i as int), set) is None,
        decreases map@.len() - i,
    {
        let key = &map[i].0;
        assert(view.subrange(0, i + 1).drop_last() =~= view.subrange(0, i as int));
        if !allows(&set, key.as_str()) {
            proof {
                lemma_first_unknown_prefix(view, set, i as int, view.len() as int);
                assert(view.subrange(0, view.len() as int) =~= view);
            }
            return Some(key);
        }
        i = i + 1;
    }
    assert(view.subrange(0, map@.len() as int) =~= view);
    None
}

/// The first unknown key of a longer prefix is the one found where a shorter prefix had
/// none.
proof fn lemma_first_unknown_prefix(view: Seq<(Seq<char>, JsonValue)>, set: KeySet, i: int, j: int)
    requires
        0 <= i < j <= view.len(),
        first_unknown(view.subrange(0, i), set) is None,
        !key_allowed(set, view[i].0),
    ensures
        first_unknown(view.subrange(0, j), set) == Some(view[i].0),
    decreases j - i,
{
    if j == i + 1 {
        assert(view.subrange(0, j).drop_last() =~= view.subrange(0, i));
    } else {
        lemma_first_unknown_prefix(view, set, i, j - 1);
        assert(view.subrange(0, j).drop_last() =~= view.subrange(0, j - 1));
    }
}

impl Question {
    /// A noul question, with optional `true`/`false` descriptions.
    pub fn noul(instructions: Json, criteria: Option<Vec<(String, Json)>>) -> (r: Self)
        ensures
            r@.kind == QuestionKind::Noul,
            r@.instructions == instructions@,
            r@.criteria == match criteria {
                Some(m) => Some(CriteriaView::Noul(entries_view(m@))),
                None => None,
            },
    {
        let criteria = match criteria {
            Some(m) => Some(Criteria::Noul(m)),
            None => None,
        };
        Question { kind: QuestionKind::Noul, instructions, criteria }
    }

    /// A choice question over the options given.
    pub fn choice(instructions: Json, criteria: Vec<(String, Json)>) -> (r: Self)
        ensures
            r@.kind == QuestionKind::Choice,
            r@.instructions == instructions@,
            r@.criteria == Some(CriteriaView::Choice(entries_view(criteria@))),
    {
        Question { kind: QuestionKind::Choice, instructions, criteria: Some(Criteria::Choice(criteria)) }
    }

    /// A score question over the levels given, in ascending order.
    pub fn score(instructions: Json, criteria: Vec<Json>) -> (r: Self)
        ensures
            r@.kind == QuestionKind::Score,
            r@.instructions == instructions@,
            r@.criteria == Some(CriteriaView::Score(items_view(criteria@))),
    {
        Question { kind: QuestionKind::Score, instructions, criteria: Some(Criteria::Score(criteria)) }
    }

    /// A copy of this question, with the same meaning.
    pub fn duplicate(&self) -> (r: Self)
        ensures
            r@ == self@,
    {
        let criteria = match &self.criteria {
            Some(Criteria::Noul(m)) => Some(Criteria::Noul(copy_entries(m))),
            Some(Criteria::Choice(m)) => Some(Criteria::Choice(copy_entries(m))),
            Some(Criteria::Score(l)) => Some(Criteria::Score(copy_items(l))),
            None => None,
        };
        Question { kind: self.kind, instructions: self.instructions.duplicate(), criteria }
    }

    /// The question as JSON, which is what goes on the wire.
    pub fn to_value(&self) -> (r: Json)
        ensures
            r@ == question_json(self@),
    {
        let mut map: Vec<(String, Json)> = Vec::new();
        let kind = (owned("type"), Json::String(owned(self.kind.as_str())));
        let instructions = (owned("instructions"), self.instructions.duplicate());
        proof {
            lemma_entries_view_push(map@, kind);
            assert(entries_view(Seq::<(String, Json)>::empty()) =~= Seq::empty());
        }
        map.push(kind);
        proof {
            lemma_entries_view_push(map@, instructions);
        }
        map.push(instructions);
        let ghost head = seq![
            ("type"@, JsonValue::String(self.kind.name())),
            ("instructions"@, self.instructions@),
        ];
        assert(entries_view(map@) =~= head);
        match &self.criteria {
            Some(criteria) => {
                let entry = (owned("criteria"), criteria.to_value());
                proof {
                    lemma_entries_view_push(map@, entry);
                }
                map.push(entry);
            },
            None => {},
        }
        Json::Object(map)
    }

    /// Check the documented limits this question cannot break, naming `id` in every
    /// message.
    pub fn validate(&self, id: &str) -> (r: Result<(), DecideError>)
        ensures
            match question_problem(self@) {
                None => r is Ok,
                Some(problem) => r matches Err(e) && is_invalid(
                    e,
                    question_location(id@),
                    problem,
                ),
            },
    {
        let location = question_place(id);
        if let Json::String(text) = &self.instructions {
            if blank(text.as_str()) {
                return Err(
                    invalid(
                        location.as_str(),
                        "the instruction is empty; a question with no instruction asks nothing",
                    ),
                );
            }
        }
        match self.kind {
            QuestionKind::Noul => validate_noul(location.as_str(), &self.criteria),
            QuestionKind::Choice => validate_choice(location.as_str(), &self.criteria),
            QuestionKind::Score => validate_score(location.as_str(), &self.criteria),
        }
    }
}

/// The view of an optional criteria.
pub open spec fn criteria_view(c: Option<Criteria>) -> Option<CriteriaView> {
    match c {
        Some(c) => Some(c@),
        None => None,
    }
}

/// A noul may carry no criteria at all, and the criteria it does carry uses two keys.
fn validate_noul(location: &str, criteria: &Option<Criteria>) -> (r: Result<(), DecideError>)
    ensures
        match question_problem(
            QuestionView { kind: QuestionKind::Noul, instructions: JsonValue::Null, criteria: criteria_view(*criteria) },
        ) {
            None => r is Ok,
            Some(problem) => r matches Err(e) && is_invalid(e, location@, problem),
        },
{
    match criteria {
        None => Ok(()),
        Some(Criteria::Noul(map)) => {
            match unknown_key_of(map, KeySet::Noul) {
                Some(key) => {
                    let problem = join3(
                        "unknown criteria key ",
                        quote(key.as_str()).as_str(),
                        "; a noul's criteria has only the keys \"true\" and \"false\"",
                    );
                    Err(invalid(location, problem.as_str()))
                },
                None => Ok(()),
            }
        },
        Some(_) => Err(invalid(location, "a noul's criteria is an object keyed \"true\" and \"false\"")),
    }
}

/// A choice picks from at least one option and at most [`MAX_CHOICE_OPTIONS`].
fn validate_choice(location: &str, criteria: &Option<Criteria>) -> (r: Result<(), DecideError>)
    ensures
        match question_problem(
            QuestionView { kind: QuestionKind::Choice, instructions: JsonValue::Null, criteria: criteria_view(*criteria) },
        ) {
            None => r is Ok,
            Some(problem) => r matches Err(e) && is_invalid(e, location@, problem),
        },
{
    match criteria {
        Some(Criteria::Choice(options)) => {
            proof {
                lemma_entries_view_index(options@);
            }
            let count = options.len();
            if count == 0 {
                Err(invalid(location, "a choice needs at least one option (none were given)"))
            } else if count > MAX_CHOICE_OPTIONS {
                let problem = join5(
                    "a choice has at most ",
                    count_text(MAX_CHOICE_OPTIONS).as_str(),
                    " options (",
                    count_text(count).as_str(),
                    " were given)",
                );
                Err(invalid(location, problem.as_str()))
            } else {
                Ok(())
            }
        },
        _ => Err(invalid(location, "a choice needs \"criteria\": a map of options to choose from")),
    }
}

/// A score rates along at least two levels and at most [`MAX_SCORE_LEVELS`].
fn validate_score(location: &str, criteria: &Option<Criteria>) -> (r: Result<(), DecideError>)
    ensures
        match question_problem(
            QuestionView { kind: QuestionKind::Score, instructions: JsonValue::Null, criteria: criteria_view(*criteria) },
        ) {
            None => r is Ok,
            Some(problem) => r matches Err(e) && is_invalid(e, location@, problem),
        },
{
    match criteria {
        Some(Criteria::Score(levels)) => {
            proof {
                lemma_items_view_index(levels@);
            }
            let count = levels.len();
            if count < MIN_SCORE_LEVELS {
                let problem = join5(
                    "a score needs at least ",
                    count_text(MIN_SCORE_LEVELS).as_str(),
                    " levels (",
                    count_text(count).as_str(),
                    " were given)",
                );
                Err(invalid(location, problem.as_str()))
            } else if count > MAX_SCORE_LEVELS {
                let problem = join5(
                    "a score has at most ",
                    count_text(MAX_SCORE_LEVELS).as_str(),
                    " levels (",
                    count_text(count).as_str(),
                    " were given)",
                );
                Err(invalid(location, problem.as_str()))
            } else {
                Ok(())
            }
        },
        _ => Err(invalid(location, "a score needs \"criteria\": an array of levels from first to last")),
    }
}


/// Where a message about the document as a whole says the problem is.
pub open spec fn document_location() -> Seq<char> {
    "the request document"@
}

/// The keys a request document may carry, as the error message lists them.
pub open spec fn request_keys_text() -> Seq<char> {
    "\"state\", \"model\", \"questions\""@
}

/// The keys a question may carry, as the error message lists them.
pub open spec fn question_keys_text() -> Seq<char> {
    "\"type\", \"instructions\", \"criteria\""@
}

/// The problem of an unknown key, naming what was expected there.
pub open spec fn unknown_key_problem(key: Seq<char>, expected: Seq<char>) -> Seq<char> {
    "unknown key "@ + quoted(key) + "; expected one of "@ + expected
}

/// The text of [`unknown_key_problem`].
fn unknown_key_text(key: &str, expected: &str) -> (r: String)
    ensures
        r@ == unknown_key_problem(key@, expected@),
{
    join3("unknown key ", quote(key).as_str(), join2("; expected one of ", expected).as_str())
}

/// The words that end every complaint about a question's `type`.
pub open spec fn type_expectation() -> Seq<char> {
    "; it must be one of \"noul\", \"choice\", or \"score\""@
}

/// The question type a question's `type` entry names, or the problem with it.
pub open spec fn kind_of(value: Option<JsonValue>) -> Result<QuestionKind, Seq<char>> {
    match value {
        Some(JsonValue::String(name)) => match QuestionKind::named(name) {
            Some(kind) => Ok(kind),
            None => Err("\"type\" is "@ + quoted(name) + type_expectation()),
        },
        Some(other) => Err("\"type\" is "@ + kind_words(other) + type_expectation()),
        None => Err("there is no \"type\""@ + type_expectation()),
    }
}

/// A question's criteria, shaped as its type calls for, or the problem with it.
pub open spec fn criteria_of(kind: QuestionKind, value: Option<JsonValue>) -> Result<
    Option<CriteriaView>,
    Seq<char>,
> {
    match (kind, value) {
        (QuestionKind::Noul, None) => Ok(None),
        (QuestionKind::Noul, Some(JsonValue::Object(map))) => Ok(Some(CriteriaView::Noul(map))),
        (QuestionKind::Noul, Some(other)) => Err(
            "a noul's \"criteria\" is "@ + kind_words(other)
                + "; it must be an object keyed \"true\" and \"false\""@,
        ),
        (QuestionKind::Choice, Some(JsonValue::Object(map))) => Ok(
            Some(CriteriaView::Choice(map)),
        ),
        (QuestionKind::Choice, Some(other)) => Err(
            "a choice's \"criteria\" is "@ + kind_words(other) + "; it must be an object of options"@,
        ),
        (QuestionKind::Choice, None) => Err(
            "a choice needs \"criteria\": a map of options to choose from"@,
        ),
        (QuestionKind::Score, Some(JsonValue::Array(levels))) => Ok(
            Some(CriteriaView::Score(levels)),
        ),
        (QuestionKind::Score, Some(other)) => Err(
            "a score's \"criteria\" is "@ + kind_words(other) + "; it must be an array of levels"@,
        ),
        (QuestionKind::Score, None) => Err(
            "a score needs \"criteria\": an array of levels from first to last"@,
        ),
    }
}

/// One question object, read strictly, or the problem with it.
pub open spec fn question_of(value: JsonValue) -> Result<QuestionView, Seq<char>> {
    match value {
        JsonValue::Object(map) => match first_unknown(map, KeySet::Question) {
            Some(key) => Err(unknown_key_problem(key, question_keys_text())),
            None => match kind_of(lookup(map, "type"@)) {
                Err(problem) => Err(problem),
                Ok(kind) => match lookup(map, "instructions"@) {
                    None => Err(
                        "there is no \"instructions\"; a question with no instruction asks nothing"@,
                    ),
                    Some(instructions) => match criteria_of(kind, lookup(map, "criteria"@)) {
                        Err(problem) => Err(problem),
                        Ok(criteria) => Ok(
                            QuestionView { kind, instructions, criteria },
                        ),
                    },
                },
            },
        },
        other => Err("the question is "@ + kind_words(other) + "; it must be an object"@),
    }
}

/// Every question of the `questions` object, read in order; the first problem, located at
/// its question, stops the read.
pub open spec fn questions_of(map: Seq<(Seq<char>, JsonValue)>) -> Result<
    Seq<(Seq<char>, QuestionView)>,
    (Seq<char>, Seq<char>),
>
    decreases map.len(),
{
    if map.len() == 0 {
        Ok(Seq::empty())
    } else {
        match questions_of(map.drop_last()) {
            Err(fault) => Err(fault),
            Ok(questions) => match question_of(map.last().1) {
                Err(problem) => Err((question_location(map.last().0), problem)),
                Ok(question) => Ok(questions.push((map.last().0, question))),
            },
        }
    }
}

/// Why a document, or a request, or a response, is refused.
pub enum Fault {
    /// The document is not a JSON object.
    NotObject,
    /// Something in the document is wrong, located.
    Invalid(Seq<char>, Seq<char>),
    /// The state is a kind of value the API does not accept.
    StateKind(Seq<char>),
    /// The response broke the answer contract.
    Contract(Seq<char>),
}

/// Whether `e` is the error that reports the fault.
pub open spec fn reports(e: DecideError, fault: Fault) -> bool {
    match fault {
        Fault::NotObject => e is DocumentNotObject,
        Fault::Invalid(location, problem) => is_invalid(e, location, problem),
        Fault::StateKind(kind) => e matches DecideError::StateKindUnsupported { kind: k } && k@
            == kind,
        Fault::Contract(problem) => e matches DecideError::ResponseContract { problem: p } && p@
            == problem,
    }
}

/// What a parsed request document means.
pub struct DocumentView {
    /// The document's own state, if it carried one.
    pub state: Option<JsonValue>,
    /// The document's model, if it named one.
    pub model: Option<Seq<char>>,
    /// The questions, by id, in the order the document holds them.
    pub questions: Seq<(Seq<char>, QuestionView)>,
}

/// A request document read strictly, or the fault that refuses it.
pub open spec fn document_of(value: JsonValue) -> Result<DocumentView, Fault> {
    match value {
        JsonValue::Object(map) => match first_unknown(map, KeySet::Request) {
            Some(key) => Err(
                Fault::Invalid(document_location(), unknown_key_problem(key, request_keys_text())),
            ),
            None => match lookup(map, "questions"@) {
                None => Err(
                    Fault::Invalid(
                        document_location(),
                        "there is no \"questions\" key; a request must ask at least one question"@,
                    ),
                ),
                Some(JsonValue::Object(entries)) => if entries.len() == 0 {
                    Err(
                        Fault::Invalid(
                            document_location(),
                            "\"questions\" is empty; a request must ask at least one question"@,
                        ),
                    )
                } else {
                    match questions_of(entries) {
                        Err((location, problem)) => Err(Fault::Invalid(location, problem)),
                        Ok(questions) => match lookup(map, "model"@) {
                            Some(JsonValue::String(name)) => Ok(
                                DocumentView { state: lookup(map, "state"@), model: Some(name), questions },
                            ),
                            None => Ok(
                                DocumentView { state: lookup(map, "state"@), model: None, questions },
                            ),
                            Some(other) => Err(
                                Fault::Invalid(
                                    document_location(),
                                    "\"model\" is "@ + kind_words(other) + "; it must be a string"@,
                                ),
                            ),
                        },
                    }
                },
                Some(other) => Err(
                    Fault::Invalid(
                        document_location(),
                        "\"questions\" is "@ + kind_words(other)
                            + "; it must be an object of question ids"@,
                    ),
                ),
            },
        },
        _ => Err(Fault::NotObject),
    }
}

/// The view of questions held by id.
pub open spec fn questions_view(questions: Seq<(String, Question)>) -> Seq<(Seq<char>, QuestionView)> {
    questions.map_values(|entry: (String, Question)| (entry.0@, entry.1@))
}

/// A parsed request document, before the state and the model are resolved.
///
/// `state` is an `Option` because an explicit `"state": null` is a different fact from a
/// document that omits the key, and where the state comes from turns on that difference.
#[derive(Debug, PartialEq, Eq)]
pub struct Document {
    /// The document's own state, if it carried one.
    pub state: Option<Json>,
    /// The document's model, if it named one.
    pub model: Option<String>,
    /// The questions, keyed by the caller's ids.
    pub questions: Vec<(String, Question)>,
}

impl View for Document {
    type V = DocumentView;

    open spec fn view(&self) -> DocumentView {
        DocumentView {
            state: match self.state {
                Some(s) => Some(s@),
                None => None,
            },
            model: match self.model {
                Some(m) => Some(m@),
                None => None,
            },
            questions: questions_view(self.questions@),
        }
    }
}

/// The question type a question's `type` entry names, or the problem with it.
fn parse_kind(value: Option<&Json>) -> (r: Result<QuestionKind, String>)
    ensures
        match kind_of(
            match value {
                Some(v) => Some(v@),
                None => None,
            },
        ) {
            Ok(kind) => r == Ok::<QuestionKind, String>(kind),
            Err(problem) => r matches Err(p) && p@ == problem,
        },
{
    match value {
        Some(Json::String(name)) => match QuestionKind::parse(name.as_str()) {
            Some(kind) => Ok(kind),
            None => Err(
                join3(
                    "\"type\" is ",
                    quote(name.as_str()).as_str(),
                    "; it must be one of \"noul\", \"choice\", or \"score\"",
                ),
            ),
        },
        Some(other) => Err(
            join3(
                "\"type\" is ",
                json_kind(other),
                "; it must be one of \"noul\", \"choice\", or \"score\"",
            ),
        ),
        None => Err(
            join2(
                "there is no \"type\"",
                "; it must be one of \"noul\", \"choice\", or \"score\"",
            ),
        ),
    }
}

/// A question's criteria, shaped as its type calls for, or the problem with it.
fn parse_criteria(kind: QuestionKind, value: Option<&Json>) -> (r: Result<Option<Criteria>, String>)
    ensures
        match criteria_of(
            kind,
            match value {
                Some(v) => Some(v@),
                None => None,
            },
        ) {
            Ok(criteria) => r matches Ok(c) && criteria_view(c) == criteria,
            Err(problem) => r matches Err(p) && p@ == problem,
        },
{
    match (kind, value) {
        (QuestionKind::Noul, None) => Ok(None),
        (QuestionKind::Noul, Some(Json::Object(map))) => Ok(Some(Criteria::Noul(copy_entries(map)))),
        (QuestionKind::Noul, Some(other)) => Err(
            join3(
                "a noul's \"criteria\" is ",
                json_kind(other),
                "; it must be an object keyed \"true\" and \"false\"",
            ),
        ),
        (QuestionKind::Choice, Some(Json::Object(map))) => Ok(
            Some(Criteria::Choice(copy_entries(map))),
        ),
        (QuestionKind::Choice, Some(other)) => Err(
            join3("a choice's \"criteria\" is ", json_kind(other), "; it must be an object of options"),
        ),
        (QuestionKind::Choice, None) => Err(
            owned("a choice needs \"criteria\": a map of options to choose from"),
        ),
        (QuestionKind::Score, Some(Json::Array(levels))) => Ok(
            Some(Criteria::Score(copy_items(levels))),
        ),
        (QuestionKind::Score, Some(other)) => Err(
            join3("a score's \"criteria\" is ", json_kind(other), "; it must be an array of levels"),
        ),
        (QuestionKind::Score, None) => Err(
            owned("a score needs \"criteria\": an array of levels from first to last"),
        ),
    }
}

/// One question object, read strictly, or the problem with it.
fn parse_question(value: &Json) -> (r: Result<Question, String>)
    ensures
        match question_of(value@) {
            Ok(question) => r matches Ok(q) && q@ == question,
            Err(problem) => r matches Err(p) && p@ == problem,
        },
{
    let map = match value {
        Json::Object(map) => map,
        _ => {
            return Err(join3("the question is ", json_kind(value), "; it must be an object"));
        },
    };
    proof {
        lemma_entries_view_index(map@);
    }
    if let Some(key) = unknown_key_of(map, KeySet::Question) {
        return Err(unknown_key_text(key.as_str(), "\"type\", \"instructions\", \"criteria\""));
    }
    let kind = match parse_kind(value.get("type")) {
        Ok(kind) => kind,
        Err(problem) => {
            return Err(problem);
        },
    };
    let instructions = match value.get("instructions") {
        Some(instructions) => instructions.duplicate(),
        None => {
            return Err(
                owned("there is no \"instructions\"; a question with no instruction asks nothing"),
            );
        },
    };
    let criteria = match parse_criteria(kind, value.get("criteria")) {
        Ok(criteria) => criteria,
        Err(problem) => {
            return Err(problem);
        },
    };
    Ok(Question { kind, instructions, criteria })
}

/// Once the questions read up to some point have failed, every longer read fails the same
/// way.
proof fn lemma_questions_of_failed(map: Seq<(Seq<char>, JsonValue)>, i: int, j: int)
    requires
        0 <= i <= j <= map.len(),
        questions_of(map.subrange(0, i)) is Err,
    ensures
        questions_of(map.subrange(0, j)) == questions_of(map.subrange(0, i)),
    decreases j - i,
{
    if j > i {
        lemma_questions_of_failed(map, i, j - 1);
        assert(map.subrange(0, j).drop_last() =~= map.subrange(0, j - 1));
    }
}

/// Every question of the `questions` object, read strictly and in order.
fn parse_questions(map: &Vec<(String, Json)>) -> (r: Result<Vec<(String, Question)>, DecideError>)
    ensures
        match questions_of(entries_view(map@)) {
            Ok(questions) => r matches Ok(q) && questions_view(q@) == questions,
            Err((location, problem)) => r matches Err(e) && is_invalid(e, location, problem),
        },
{
    proof {
        lemma_entries_view_index(map@);
    }
    let ghost view = entries_view(map@);
    let mut out: Vec<(String, Question)> = Vec::new();
    let mut i: usize = 0;
    assert(view.subrange(0, 0) =~= Seq::<(Seq<char>, JsonValue)>::empty());
    assert(questions_view(out@) =~= Seq::empty());
    while i < map.len()
        invariant
            i <= map@.len(),
            view == entries_view(map@),
            view.len() == map@.len(),
            forall|k: int| 0 <= k < map@.len() ==> #[trigger] view[k] == (map@[k].0@, map@[k].1@),
            questions_of(view.subrange(0, i as int)) == Ok::<_, (Seq<char>, Seq<char>)>(
                questions_view(out@),
            ),
        decreases map@.len() - i,
    {
        let id = &map[i].0;
        assert(view.subrange(0, i + 1).drop_last() =~= view.subrange(0, i as int));
        match parse_question(&map[i].1) {
            Ok(question) => {
                let entry = (id.clone(), question);
                let ghost before = out@;
                out.push(entry);
                assert(questions_view(out@) =~= questions_view(before).push((entry.0@, entry.1@)));
            },
            Err(problem) => {
                proof {
                    lemma_questions_of_failed(view, i + 1, view.len() as int);
                    assert(view.subrange(0, view.len() as int) =~= view);
                }
                let location = question_place(id.as_str());
                return Err(invalid(location.as_str(), problem.as_str()));
            },
        }
        i = i + 1;
    }
    assert(view.subrange(0, map@.len() as int) =~= view);
    Ok(out)
}

impl Document {
    /// Parse a request document: it must be JSON, and is then read strictly.
    pub fn from_slice(text: &str) -> (r: Result<Self, DecideError>)
        ensures
            match parsed_json(text@) {
                None => r matches Err(e) && e is DocumentNotJson,
                Some(v) => match document_of(v) {
                    Ok(document) => r matches Ok(d) && d@ == document,
                    Err(fault) => r matches Err(e) && reports(e, fault),
                },
            },
    {
        match parse_json_text(text) {
            Ok(value) => Document::from_value(&value),
            Err(reason) => Err(DecideError::DocumentNotJson { reason }),
        }
    }

    /// Validate a request document that has already been parsed as JSON, strictly.
    pub fn from_value(value: &Json) -> (r: Result<Self, DecideError>)
        ensures
            match document_of(value@) {
                Ok(document) => r matches Ok(d) && d@ == document,
                Err(fault) => r matches Err(e) && reports(e, fault),
            },
    {
        let map = match value {
            Json::Object(map) => map,
            _ => {
                return Err(DecideError::DocumentNotObject);
            },
        };
        if let Some(key) = unknown_key_of(map, KeySet::Request) {
            let problem = unknown_key_text(key.as_str(), "\"state\", \"model\", \"questions\"");
            return Err(invalid("the request document", problem.as_str()));
        }
        let questions = match value.get("questions") {
            None => {
                return Err(
                    invalid(
                        "the request document",
                        "there is no \"questions\" key; a request must ask at least one question",
                    ),
                );
            },
            Some(Json::Object(entries)) => {
                proof {
                    lemma_entries_view_index(entries@);
                }
                if entries.len() == 0 {
                    return Err(
                        invalid(
                            "the request document",
                            "\"questions\" is empty; a request must ask at least one question",
                        ),
                    );
                }
                parse_questions(entries)?
            },
            Some(other) => {
                let problem = join3(
                    "\"questions\" is ",
                    json_kind(other),
                    "; it must be an object of question ids",
                );
                return Err(invalid("the request document", problem.as_str()));
            },
        };
        let model = match value.get("model") {
            None => None,
            Some(Json::String(name)) => Some(name.clone()),
            Some(other) => {
                let problem = join3("\"model\" is ", json_kind(other), "; it must be a string");
                return Err(invalid("the request document", problem.as_str()));
            },
        };
        let state = match value.get("state") {
            Some(state) => Some(state.duplicate()),
            None => None,
        };
        Ok(Document { state, model, questions })
    }
}


/// The kind a state has that the API does not accept, named for the message.
pub open spec fn state_kind_fault(state: JsonValue) -> Option<Seq<char>> {
    match state {
        JsonValue::Number(_) => Some("a number"@),
        JsonValue::Bool(_) => Some("a boolean"@),
        _ => None,
    }
}

/// Refuse a state that is neither a string, an object, an array, nor `null`.
pub fn check_state_kind(state: &Json) -> (r: Result<(), DecideError>)
    ensures
        match state_kind_fault(state@) {
            None => r is Ok,
            Some(kind) => r matches Err(e) && reports(e, Fault::StateKind(kind)),
        },
{
    match state {
        Json::Number(_) => Err(DecideError::StateKindUnsupported { kind: "a number" }),
        Json::Bool(_) => Err(DecideError::StateKindUnsupported { kind: "a boolean" }),
        _ => Ok(()),
    }
}

/// The first problem among questions held by id, in order: an empty id, or a limit a
/// question breaks.
pub open spec fn questions_fault(questions: Seq<(Seq<char>, QuestionView)>) -> Option<
    (Seq<char>, Seq<char>),
>
    decreases questions.len(),
{
    if questions.len() == 0 {
        None
    } else {
        match questions_fault(questions.drop_last()) {
            Some(fault) => Some(fault),
            None => {
                let (id, question) = questions.last();
                if id.len() == 0 {
                    Some(
                        (
                            document_location(),
                            "a question id cannot be empty, because an empty id cannot be addressed"@,
                        ),
                    )
                } else {
                    match question_problem(question) {
                        Some(problem) => Some((question_location(id), problem)),
                        None => None,
                    }
                }
            },
        }
    }
}

/// What a request means.
pub struct RequestView {
    /// What the questions are about.
    pub state: JsonValue,
    /// The model or alias that handles the call.
    pub model: Seq<char>,
    /// The questions, by id.
    pub questions: Seq<(Seq<char>, QuestionView)>,
}

/// Why a request would break a documented limit, if it would.
pub open spec fn request_fault(request: RequestView) -> Option<Fault> {
    match state_kind_fault(request.state) {
        Some(kind) => Some(Fault::StateKind(kind)),
        None => if request.questions.len() == 0 {
            Some(
                Fault::Invalid(
                    document_location(),
                    "\"questions\" is empty; a request must ask at least one question"@,
                ),
            )
        } else {
            match questions_fault(request.questions) {
                Some((location, problem)) => Some(Fault::Invalid(location, problem)),
                None => None,
            }
        },
    }
}

/// The questions object of a request: each id with its question as JSON.
pub open spec fn questions_json(questions: Seq<(Seq<char>, QuestionView)>) -> Seq<
    (Seq<char>, JsonValue),
> {
    questions.map_values(|entry: (Seq<char>, QuestionView)| (entry.0, question_json(entry.1)))
}

/// The request as JSON: the state, the model, and the questions.
pub open spec fn request_json(request: RequestView) -> JsonValue {
    JsonValue::Object(
        seq![
            ("state"@, request.state),
            ("model"@, JsonValue::String(request.model)),
            ("questions"@, JsonValue::Object(questions_json(request.questions))),
        ],
    )
}

/// One request, ready to be sent: the state, the model, and the questions.
#[derive(Debug, PartialEq, Eq)]
pub struct Request {
    /// What the questions are about. May be `null`.
    pub state: Json,
    /// The model or alias that handles the call.
    pub model: String,
    /// The questions, keyed by the caller's ids.
    pub questions: Vec<(String, Question)>,
}

impl View for Request {
    type V = RequestView;

    open spec fn view(&self) -> RequestView {
        RequestView {
            state: self.state@,
            model: self.model@,
            questions: questions_view(self.questions@),
        }
    }
}

/// Once a problem is found among the first questions, every longer run finds the same
/// one.
proof fn lemma_questions_fault_found(questions: Seq<(Seq<char>, QuestionView)>, i: int, j: int)
    requires
        0 <= i <= j <= questions.len(),
        questions_fault(questions.subrange(0, i)) is Some,
    ensures
        questions_fault(questions.subrange(0, j)) == questions_fault(questions.subrange(0, i)),
    decreases j - i,
{
    if j > i {
        lemma_questions_fault_found(questions, i, j - 1);
        assert(questions.subrange(0, j).drop_last() =~= questions.subrange(0, j - 1));
    }
}

impl Request {
    /// Assemble a request and check every documented limit it could break.
    pub fn new(state: Json, model: String, questions: Vec<(String, Question)>) -> (r: Result<
        Self,
        DecideError,
    >)
        ensures
            match request_fault(RequestView { state: state@, model: model@, questions: questions_view(questions@) }) {
                None => r matches Ok(request) && request@ == RequestView {
                    state: state@,
                    model: model@,
                    questions: questions_view(questions@),
                },
                Some(fault) => r matches Err(e) && reports(e, fault),
            },
    {
        let request = Request { state, model, questions };
        match request.validate() {
            Ok(()) => Ok(request),
            Err(e) => Err(e),
        }
    }

    /// Check every limit that can be checked without a tokenizer.
    pub fn validate(&self) -> (r: Result<(), DecideError>)
        ensures
            match request_fault(self@) {
                None => r is Ok,
                Some(fault) => r matches Err(e) && reports(e, fault),
            },
    {
        check_state_kind(&self.state)?;
        if self.questions.len() == 0 {
            return Err(
                invalid(
                    "the request document",
                    "\"questions\" is empty; a request must ask at least one question",
                ),
            );
        }
        let ghost view = questions_view(self.questions@);
        let mut i: usize = 0;
        assert(view.subrange(0, 0) =~= Seq::<(Seq<char>, QuestionView)>::empty());
        while i < self.questions.len()
            invariant
                i <= self.questions@.len(),
                view == questions_view(self.questions@),
                view == self@.questions,
                state_kind_fault(self@.state) is None,
                self@.questions.len() > 0,
                questions_fault(view.subrange(0, i as int)) is None,
            decreases self.questions@.len() - i,
        {
            let (id, question) = (&self.questions[i].0, &self.questions[i].1);
            assert(view.subrange(0, i + 1).drop_last() =~= view.subrange(0, i as int));
            assert(view.subrange(0, i + 1).last() == view[i as int]);
            if id.unicode_len() == 0 {
                proof {
                    lemma_questions_fault_found(view, i + 1, view.len() as int);
                    assert(view.subrange(0, view.len() as int) =~= view);
                }
                return Err(
                    invalid(
                        "the request document",
                        "a question id cannot be empty, because an empty id cannot be addressed",
                    ),
                );
            }
            match question.validate(id.as_str()) {
                Ok(()) => {},
                Err(e) => {
                    proof {
                        lemma_questions_fault_found(view, i + 1, view.len() as int);
                        assert(view.subrange(0, view.len() as int) =~= view);
                    }
                    return Err(e);
                },
            }
            i = i + 1;
        }
        assert(view.subrange(0, self.questions@.len() as int) =~= view);
        Ok(())
    }

    /// The request as JSON, which is what goes on the wire and what `--dry-run` prints.
    pub fn to_value(&self) -> (r: Json)
        ensures
            r@ == request_json(self@),
    {
        let ghost view = questions_view(self.questions@);
        let mut questions: Vec<(String, Json)> = Vec::new();
        let mut i: usize = 0;
        while i < self.questions.len()
            invariant
                i <= self.questions@.len(),
                view == questions_view(self.questions@),
                entries_view(questions@) == questions_json(view.subrange(0, i as int)),
            decreases self.questions@.len() - i,
        {
            let entry = (self.questions[i].0.clone(), self.questions[i].1.to_value());
            proof {
                lemma_entries_view_push(questions@, entry);
                assert(questions_json(view.subrange(0, i + 1)) =~= questions_json(
                    view.subrange(0, i as int),
                ).push((entry.0@, entry.1@)));
            }
            questions.push(entry);
            i = i + 1;
        }
        assert(view.subrange(0, self.questions@.len() as int) =~= view);
        let mut map: Vec<(String, Json)> = Vec::new();
        let state = (owned("state"), self.state.duplicate());
        let model = (owned("model"), Json::String(self.model.clone()));
        let questions = (owned("questions"), Json::Object(questions));
        proof {
            assert(entries_view(Seq::<(String, Json)>::empty()) =~= Seq::empty());
            lemma_entries_view_push(map@, state);
        }
        map.push(state);
        proof {
            lemma_entries_view_push(map@, model);
        }
        map.push(model);
        proof {
            lemma_entries_view_push(map@, questions);
        }
        map.push(questions);
        assert(entries_view(map@) =~= seq![
            ("state"@, self.state@),
            ("model"@, JsonValue::String(self.model@)),
            ("questions"@, JsonValue::Object(questions_json(view))),
        ]);
        Json::Object(map)
    }

    /// How many questions the request asks.
    pub fn question_count(&self) -> (r: usize)
        ensures
            r == self@.questions.len(),
    {
        self.questions.len()
    }

    /// The id of the single question, when the request asked exactly one.
    pub fn only_question_id(&self) -> (r: Option<&str>)
        ensures
            match r {
                Some(id) => self@.questions.len() == 1 && id@ == self@.questions[0].0,
                None => self@.questions.len() != 1,
            },
    {
        if self.questions.len() == 1 {
            Some(self.questions[0].0.as_str())
        } else {
            None
        }
    }
}


/// What an answer means.
pub struct AnswerView {
    /// The answer's own type.
    pub kind: QuestionKind,
    /// The answer object, whole.
    pub value: JsonValue,
}

/// The start of every complaint about the answer for question `id`.
pub open spec fn answer_location(id: Seq<char>) -> Seq<char> {
    "the answer for question "@ + quoted(id)
}

/// Whether an answer's own value has the shape its type calls for: a number for a noul
/// or a score, a string for a choice.
pub open spec fn own_shape_is_right(kind: QuestionKind, own: JsonValue) -> bool {
    match kind {
        QuestionKind::Noul | QuestionKind::Score => own is Number,
        QuestionKind::Choice => own is String,
    }
}

/// The words for the shape an answer's own value must have.
pub open spec fn wanted_words(kind: QuestionKind) -> Seq<char> {
    match kind {
        QuestionKind::Noul | QuestionKind::Score => "a number"@,
        QuestionKind::Choice => "a string"@,
    }
}

/// One answer checked against the question it claims to answer, or what breaks the
/// contract.
pub open spec fn answer_of(id: Seq<char>, value: JsonValue, kind: QuestionKind) -> Result<
    AnswerView,
    Seq<char>,
> {
    match value {
        JsonValue::Object(map) => match lookup(map, "type"@) {
            Some(JsonValue::String(found)) => if QuestionKind::named(found) != Some(kind) {
                Err(
                    "question "@ + quoted(id) + " asked for a "@ + kind.name()
                        + ", but the response answered with "@ + quoted(found),
                )
            } else {
                match lookup(map, kind.name()) {
                    None => Err(answer_location(id) + " has no "@ + quoted(kind.name())),
                    Some(own) => if own_shape_is_right(kind, own) {
                        Ok(AnswerView { kind, value })
                    } else {
                        Err(
                            answer_location(id) + ": "@ + quoted(kind.name()) + " is "@
                                + kind_words(own) + ", not "@ + wanted_words(kind),
                        )
                    },
                }
            },
            _ => Err(answer_location(id) + " has no \"type\""@),
        },
        other => Err(answer_location(id) + " is "@ + kind_words(other) + ", not an object"@),
    }
}

/// The answers to the questions asked, in the order they were asked; the first question
/// without a good answer breaks the contract.
pub open spec fn answers_of(
    questions: Seq<(Seq<char>, QuestionView)>,
    answers: Seq<(Seq<char>, JsonValue)>,
) -> Result<Seq<(Seq<char>, AnswerView)>, Seq<char>>
    decreases questions.len(),
{
    if questions.len() == 0 {
        Ok(Seq::empty())
    } else {
        match answers_of(questions.drop_last(), answers) {
            Err(problem) => Err(problem),
            Ok(found) => {
                let (id, question) = questions.last();
                match lookup(answers, id) {
                    None => Err("there is no answer for question "@ + quoted(id)),
                    Some(answer) => match answer_of(id, answer, question.kind) {
                        Err(problem) => Err(problem),
                        Ok(a) => Ok(found.push((id, a))),
                    },
                }
            },
        }
    }
}

/// What a parsed response means.
pub struct ResponseView {
    /// The body, whole.
    pub value: JsonValue,
    /// The versioned model id that answered, when the body named one.
    pub model: Option<Seq<char>>,
    /// The answers, by the ids the request sent.
    pub answers: Seq<(Seq<char>, AnswerView)>,
}

/// A response body checked against the request it answers, tolerantly, or what breaks the
/// answer contract.
pub open spec fn response_of(value: JsonValue, request: RequestView) -> Result<
    ResponseView,
    Seq<char>,
> {
    match value {
        JsonValue::Object(map) => match lookup(map, "answers"@) {
            None => Err("there is no \"answers\" object, so no question was answered"@),
            Some(JsonValue::Object(answers)) => match answers_of(request.questions, answers) {
                Err(problem) => Err(problem),
                Ok(found) => Ok(
                    ResponseView {
                        value,
                        model: match lookup(map, "model"@) {
                            Some(JsonValue::String(name)) => Some(name),
                            _ => None,
                        },
                        answers: found,
                    },
                ),
            },
            Some(other) => Err("\"answers\" is "@ + kind_words(other) + ", not an object"@),
        },
        other => Err("the body is "@ + kind_words(other) + ", not an object"@),
    }
}

/// One answer, with the type it claims and the object it arrived in.
#[derive(Debug, PartialEq, Eq)]
pub struct Answer {
    /// The answer's own type, which must agree with its question.
    pub kind: QuestionKind,
    /// The answer object, whole, for `--field` to walk.
    pub value: Json,
}

impl View for Answer {
    type V = AnswerView;

    open spec fn view(&self) -> AnswerView {
        AnswerView { kind: self.kind, value: self.value@ }
    }
}

impl Answer {
    /// The answer's own value: `noul`, `choice`, or `score`, whichever its type has.
    pub fn own_value(&self) -> (r: Option<&Json>)
        ensures
            match r {
                Some(v) => value_get(self.value@, self.kind.name()) == Some(v@),
                None => value_get(self.value@, self.kind.name()) is None,
            },
    {
        self.value.get(self.kind.as_str())
    }
}

/// The view of answers held by id.
pub open spec fn answers_view(answers: Seq<(String, Answer)>) -> Seq<(Seq<char>, AnswerView)> {
    answers.map_values(|entry: (String, Answer)| (entry.0@, entry.1@))
}

/// A parsed response, held together with the questions it answers.
#[derive(Debug, PartialEq, Eq)]
pub struct Response {
    /// The body, as a value, for printing and for `--select`.
    pub value: Json,
    /// The versioned model id that answered, when the body named one.
    pub model: Option<String>,
    /// The answers, keyed by the ids the request sent.
    pub answers: Vec<(String, Answer)>,
}

impl View for Response {
    type V = ResponseView;

    open spec fn view(&self) -> ResponseView {
        ResponseView {
            value: self.value@,
            model: match self.model {
                Some(m) => Some(m@),
                None => None,
            },
            answers: answers_view(self.answers@),
        }
    }
}

/// An error about the response breaking the answer contract.
fn contract(problem: String) -> (r: DecideError)
    ensures
        reports(r, Fault::Contract(problem@)),
{
    DecideError::ResponseContract { problem }
}

/// Check one answer against the question it claims to answer.
fn parse_answer(id: &str, value: &Json, kind: QuestionKind) -> (r: Result<Answer, String>)
    ensures
        match answer_of(id@, value@, kind) {
            Ok(answer) => r matches Ok(a) && a@ == answer,
            Err(problem) => r matches Err(p) && p@ == problem,
        },
{
    let location = join2("the answer for question ", quote(id).as_str());
    match value {
        Json::Object(_) => {},
        _ => {
            return Err(join3(location.as_str(), " is ", join2(json_kind(value), ", not an object").as_str()));
        },
    }
    let found = match value.get("type") {
        Some(Json::String(name)) => name,
        _ => {
            return Err(join2(location.as_str(), " has no \"type\""));
        },
    };
    let agrees = match QuestionKind::parse(found.as_str()) {
        Some(named) => named == kind,
        None => false,
    };
    if !agrees {
        let head = join3("question ", quote(id).as_str(), " asked for a ");
        let tail = join3(kind.as_str(), ", but the response answered with ", quote(found.as_str()).as_str());
        let r = join2(head.as_str(), tail.as_str());
        assert(r@ =~= "question "@ + quoted(id@) + " asked for a "@ + kind.name()
            + ", but the response answered with "@ + quoted(found@));
        return Err(r);
    }
    let own = match value.get(kind.as_str()) {
        Some(own) => own,
        None => {
            return Err(join3(location.as_str(), " has no ", quote(kind.as_str()).as_str()));
        },
    };
    let (shape_is_right, wanted) = match kind {
        QuestionKind::Noul | QuestionKind::Score => (matches!(own, Json::Number(_)), "a number"),
        QuestionKind::Choice => (matches!(own, Json::String(_)), "a string"),
    };
    if !shape_is_right {
        let head = join3(location.as_str(), ": ", quote(kind.as_str()).as_str());
        let tail = join3(" is ", json_kind(own), join2(", not ", wanted).as_str());
        let r = join2(head.as_str(), tail.as_str());
        assert(r@ =~= answer_location(id@) + ": "@ + quoted(kind.name()) + " is "@
            + kind_words(own@) + ", not "@ + wanted_words(kind));
        return Err(r);
    }
    Ok(Answer { kind, value: value.duplicate() })
}

/// Once an answer is missing among the first questions, every longer run misses it too.
proof fn lemma_answers_of_failed(
    questions: Seq<(Seq<char>, QuestionView)>,
    answers: Seq<(Seq<char>, JsonValue)>,
    i: int,
    j: int,
)
    requires
        0 <= i <= j <= questions.len(),
        answers_of(questions.subrange(0, i), answers) is Err,
    ensures
        answers_of(questions.subrange(0, j), answers) == answers_of(
            questions.subrange(0, i),
            answers,
        ),
    decreases j - i,
{
    if j > i {
        lemma_answers_of_failed(questions, answers, i, j - 1);
        assert(questions.subrange(0, j).drop_last() =~= questions.subrange(0, j - 1));
    }
}

impl Response {
    /// Parse a response body and check it against the request it answers.
    pub fn from_slice(text: &str, request: &Request) -> (r: Result<Self, DecideError>)
        ensures
            match parsed_json(text@) {
                None => r matches Err(e) && e is ResponseNotJson,
                Some(v) => match response_of(v, request@) {
                    Ok(response) => r matches Ok(resp) && resp@ == response,
                    Err(problem) => r matches Err(e) && reports(e, Fault::Contract(problem)),
                },
            },
    {
        match parse_json_text(text) {
            Ok(value) => Response::from_value(value, request),
            Err(reason) => Err(DecideError::ResponseNotJson { reason }),
        }
    }

    /// Check a response that has already been parsed as JSON against the request it
    /// answers, tolerantly: unknown fields are ignored, and what is checked is that every
    /// question has an answer whose type agrees with it.
    pub fn from_value(value: Json, request: &Request) -> (r: Result<Self, DecideError>)
        ensures
            match response_of(value@, request@) {
                Ok(response) => r matches Ok(resp) && resp@ == response,
                Err(problem) => r matches Err(e) && reports(e, Fault::Contract(problem)),
            },
    {
        match &value {
            Json::Object(_) => {},
            _ => {
                return Err(contract(join3("the body is ", json_kind(&value), ", not an object")));
            },
        }
        let answer_map = match value.get("answers") {
            None => {
                return Err(
                    contract(owned("there is no \"answers\" object, so no question was answered")),
                );
            },
            Some(Json::Object(_)) => value.get("answers").unwrap(),
            Some(other) => {
                return Err(contract(join3("\"answers\" is ", json_kind(other), ", not an object")));
            },
        };
        let ghost answer_entries = match answer_map@ {
            JsonValue::Object(e) => e,
            _ => Seq::empty(),
        };
        let ghost view = request@.questions;
        let mut answers: Vec<(String, Answer)> = Vec::new();
        let mut i: usize = 0;
        assert(view.subrange(0, 0) =~= Seq::<(Seq<char>, QuestionView)>::empty());
        assert(answers_view(answers@) =~= Seq::empty());
        while i < request.questions.len()
            invariant
                i <= request.questions@.len(),
                view == request@.questions,
                view == questions_view(request.questions@),
                answer_map@ == JsonValue::Object(answer_entries),
                value@ is Object,
                value_get(value@, "answers"@) == Some(JsonValue::Object(answer_entries)),
                answers_of(view.subrange(0, i as int), answer_entries) == Ok::<_, Seq<char>>(
                    answers_view(answers@),
                ),
            decreases request.questions@.len() - i,
        {
            let id = &request.questions[i].0;
            let kind = request.questions[i].1.kind;
            assert(view.subrange(0, i + 1).drop_last() =~= view.subrange(0, i as int));
            assert(view.subrange(0, i + 1).last() == view[i as int]);
            let answer = match answer_map.get(id.as_str()) {
                Some(answer) => answer,
                None => {
                    proof {
                        lemma_answers_of_failed(view, answer_entries, i + 1, view.len() as int);
                        assert(view.subrange(0, view.len() as int) =~= view);
                    }
                    return Err(
                        contract(join2("there is no answer for question ", quote(id.as_str()).as_str())),
                    );
                },
            };
            match parse_answer(id.as_str(), answer, kind) {
                Ok(parsed) => {
                    let entry = (id.clone(), parsed);
                    let ghost before = answers@;
                    answers.push(entry);
                    assert(answers_view(answers@) =~= answers_view(before).push(
                        (entry.0@, entry.1@),
                    ));
                },
                Err(problem) => {
                    proof {
                        lemma_answers_of_failed(view, answer_entries, i + 1, view.len() as int);
                        assert(view.subrange(0, view.len() as int) =~= view);
                    }
                    return Err(contract(problem));
                },
            }
            i = i + 1;
        }
        assert(view.subrange(0, request.questions@.len() as int) =~= view);
        let model = match value.get("model") {
            Some(Json::String(name)) => Some(name.clone()),
            _ => None,
        };
        Ok(Response { value, model, answers })
    }

    /// The token usage the body reported, if it reported one this client understands.
    pub fn usage(&self) -> (r: Option<Usage>)
        ensures
            r == usage_of(self.value@),
    {
        usage_in(&self.value)
    }
}

/// The token usage a body reports, if it reports one this client understands.
pub fn usage_in(body: &Json) -> (r: Option<Usage>)
    ensures
        r == usage_of(body@),
{
    let usage = body.get("usage")?;
    let input_tokens = usage.get("input_tokens")?.as_u64()?;
    let output_tokens = usage.get("output_tokens")?.as_u64()?;
    Some(Usage { input_tokens, output_tokens })
}

/// Token accounting, as the response reports it.
#[derive(Debug, Clone, Copy, PartialEq, Eq, Structural)]
pub struct Usage {
    /// What the request cost.
    pub input_tokens: u64,
    /// What the answer cost.
    pub output_tokens: u64,
}

/// The number a value holds under `key`, when it is an unsigned integer.
pub open spec fn count_at(value: JsonValue, key: Seq<char>) -> Option<u64> {
    match value_get(value, key) {
        Some(v) => value_u64(v),
        None => None,
    }
}

/// The usage a body reports: both token counts, or nothing.
pub open spec fn usage_of(body: JsonValue) -> Option<Usage> {
    match value_get(body, "usage"@) {
        Some(usage) => match (count_at(usage, "input_tokens"@), count_at(usage, "output_tokens"@)) {
            (Some(input_tokens), Some(output_tokens)) => Some(Usage { input_tokens, output_tokens }),
            _ => None,
        },
        None => None,
    }
}


/// What one model in the list means.
pub struct ModelView {
    /// The alias.
    pub name: Seq<char>,
    /// What it is for, if the API said.
    pub description: Option<Seq<char>>,
    /// When it was released, if the API said.
    pub release_date: Option<Seq<char>>,
}

/// The text a value holds under `key`, when it is a string.
pub open spec fn text_at(value: JsonValue, key: Seq<char>) -> Option<Seq<char>> {
    match value_get(value, key) {
        Some(JsonValue::String(text)) => Some(text),
        _ => None,
    }
}

/// The models a list of entries names, skipping any entry that is not an object with a
/// name.
pub open spec fn models_in(entries: Seq<JsonValue>) -> Seq<ModelView>
    decreases entries.len(),
{
    if entries.len() == 0 {
        Seq::empty()
    } else {
        let prior = models_in(entries.drop_last());
        let entry = entries.last();
        match text_at(entry, "name"@) {
            Some(name) => prior.push(
                ModelView {
                    name,
                    description: text_at(entry, "description"@),
                    release_date: text_at(entry, "release_date"@),
                },
            ),
            None => prior,
        }
    }
}

/// The models a `GET /v1/models` body lists.
pub open spec fn models_of(body: JsonValue) -> Seq<ModelView> {
    match value_get(body, "models"@) {
        Some(JsonValue::Array(entries)) => models_in(entries),
        _ => Seq::empty(),
    }
}

/// One model in the `GET /v1/models` list.
#[derive(Debug, PartialEq, Eq)]
pub struct Model {
    /// The alias, such as `jev-latest`.
    pub name: String,
    /// What it is for, if the API said.
    pub description: Option<String>,
    /// When it was released, if the API said.
    pub release_date: Option<String>,
}

impl View for Model {
    type V = ModelView;

    open spec fn view(&self) -> ModelView {
        ModelView {
            name: self.name@,
            description: owned_opt_view(self.description),
            release_date: owned_opt_view(self.release_date),
        }
    }
}

/// The text a value holds under `key`, when it is a string.
fn text_under(value: &Json, key: &str) -> (r: Option<String>)
    ensures
        owned_opt_view(r) == text_at(value@, key@),
{
    match value.get(key) {
        Some(Json::String(text)) => Some(text.clone()),
        _ => None,
    }
}

/// The `GET /v1/models` body, printed whole and viewed through [`Model`].
#[derive(Debug, PartialEq, Eq)]
pub struct ModelsResponse {
    /// The body, as a value, for printing and for `--select`.
    pub value: Json,
}

impl ModelsResponse {
    /// Parse a models body. Only valid JSON is required; the entries are tolerant.
    pub fn from_slice(text: &str) -> (r: Result<Self, DecideError>)
        ensures
            match parsed_json(text@) {
                None => r matches Err(e) && e is ResponseNotJson,
                Some(v) => r matches Ok(m) && m.value@ == v,
            },
    {
        match parse_json_text(text) {
            Ok(value) => Ok(ModelsResponse { value }),
            Err(reason) => Err(DecideError::ResponseNotJson { reason }),
        }
    }

    /// The models the body lists, skipping any entry that is not an object with a name.
    pub fn models(&self) -> (r: Vec<Model>)
        ensures
            r@.map_values(|m: Model| m@) == models_of(self.value@),
    {
        let mut out: Vec<Model> = Vec::new();
        match self.value.get("models") {
            Some(Json::Array(entries)) => {
                proof {
                    lemma_items_view_index(entries@);
                }
                let ghost view = items_view(entries@);
                let mut i: usize = 0;
                assert(view.subrange(0, 0) =~= Seq::<JsonValue>::empty());
                assert(out@.map_values(|m: Model| m@) =~= Seq::<ModelView>::empty());
                while i < entries.len()
                    invariant
                        i <= entries@.len(),
                        view == items_view(entries@),
                        view.len() == entries@.len(),
                        forall|k: int| 0 <= k < entries@.len() ==> #[trigger] view[k] == entries@[k]@,
                        value_get(self.value@, "models"@) == Some(JsonValue::Array(view)),
                        out@.map_values(|m: Model| m@) == models_in(view.subrange(0, i as int)),
                    decreases entries@.len() - i,
                {
                    let entry = &entries[i];
                    assert(view.subrange(0, i + 1).drop_last() =~= view.subrange(0, i as int));
                    assert(view.subrange(0, i + 1).last() == entry@);
                    if let Some(name) = text_under(entry, "name") {
                        let model = Model {
                            name,
                            description: text_under(entry, "description"),
                            release_date: text_under(entry, "release_date"),
                        };
                        let ghost before = out@;
                        out.push(model);
                        assert(out@.map_values(|m: Model| m@) =~= before.map_values(
                            |m: Model| m@,
                        ).push(model@));
                    }
                    i = i + 1;
                }
                assert(view.subrange(0, entries@.len() as int) =~= view);
            },
            _ => {
                assert(out@.map_values(|m: Model| m@) =~= Seq::<ModelView>::empty());
            },
        }
        out
    }

    /// Whether the body lists any model at all.
    ///
    /// JSON is not enough to call a response an answer: a proxy, a captive portal, or a
    /// base URL pointing at some other service can answer `200` with a body of its own.
    /// What this requires is the documented shape — a `models` array holding at least one
    /// entry with a `name` — and no more than that.
    pub fn lists_models(&self) -> (r: bool)
        ensures
            r == (models_of(self.value@).len() > 0),
    {
        let models = self.models();
        assert(models@.map_values(|m: Model| m@).len() == models@.len());
        models.len() > 0
    }
}

} // verus!
