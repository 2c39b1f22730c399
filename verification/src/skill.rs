//! The extraction skill: what it accepts, what it must return, and the
//! check that what it returns stands in the source text.

use crate::json::{json_parse, json_text, Json, JsonValue};
use crate::text::{
    chars_of, contains, contains_chars, lowercase, lowercase_chars, str_eq, texts_of,
    trim, trimmed, word_bounds, words,
};
use vstd::prelude::*;
use vstd::string::{StrSliceExecFns, StringExecFns};

verus! {

/// What the extraction skill can be asked to find.
#[derive(Clone, Copy, Debug, PartialEq, Eq, Structural)]
pub enum ExtractionTarget {
    Email,
    Url,
    Date,
    Entity,
    Name,
}

impl ExtractionTarget {
    /// The target's name, which is also the field that holds its values.
    pub open spec fn name(self) -> Seq<char> {
        match self {
            ExtractionTarget::Email => "email"@,
            ExtractionTarget::Url => "url"@,
            ExtractionTarget::Date => "date"@,
            ExtractionTarget::Entity => "entity"@,
            ExtractionTarget::Name => "name"@,
        }
    }

    /// The target that a lowercase name stands for.
    pub open spec fn named(lower: Seq<char>) -> Option<ExtractionTarget> {
        if lower == "email"@ {
            Some(ExtractionTarget::Email)
        } else if lower == "url"@ {
            Some(ExtractionTarget::Url)
        } else if lower == "date"@ {
            Some(ExtractionTarget::Date)
        } else if lower == "entity"@ {
            Some(ExtractionTarget::Entity)
        } else if lower == "name"@ {
            Some(ExtractionTarget::Name)
        } else {
            None
        }
    }

    /// The target that a name in lower case stands for.
    pub fn from_lowercase(lower: &str) -> (r: Option<Self>)
        ensures
            r == Self::named(lower@),
    {
        if str_eq(lower, "email") {
            Some(ExtractionTarget::Email)
        } else if str_eq(lower, "url") {
            Some(ExtractionTarget::Url)
        } else if str_eq(lower, "date") {
            Some(ExtractionTarget::Date)
        } else if str_eq(lower, "entity") {
            Some(ExtractionTarget::Entity)
        } else if str_eq(lower, "name") {
            Some(ExtractionTarget::Name)
        } else {
            None
        }
    }

    /// The target that `s` names, in any mix of upper and lower case.
    pub fn from_str(s: &str) -> (r: Option<Self>)
        ensures
            r == Self::named(lowercase(s@)),
    {
        let lower = s.to_lowercase();
        Self::from_lowercase(lower.as_str())
    }

    /// The target's name.
    pub fn as_str(&self) -> (r: &'static str)
        ensures
            r@ == self.name(),
    {
        match self {
            ExtractionTarget::Email => "email",
            ExtractionTarget::Url => "url",
            ExtractionTarget::Date => "date",
            ExtractionTarget::Entity => "entity",
            ExtractionTarget::Name => "name",
        }
    }
}

/// Model of a [`SkillError`].
pub ghost enum SkillErrorView {
    EmptyInput,
    InvalidTarget(Seq<char>),
    MalformedOutput(Seq<char>),
    SchemaViolation(Seq<char>),
    HallucinationDetected(Seq<char>),
}

impl SkillErrorView {
    /// The error as a line of text.
    pub open spec fn describe(self) -> Seq<char> {
        match self {
            SkillErrorView::EmptyInput => "EmptyInput: the input text is empty"@,
            SkillErrorView::InvalidTarget(t) => "InvalidTarget: unknown target '"@ + t + "'"@,
            SkillErrorView::MalformedOutput(m) => "MalformedOutput: "@ + m,
            SkillErrorView::SchemaViolation(m) => "SchemaViolation: "@ + m,
            SkillErrorView::HallucinationDetected(v) => "HallucinationDetected: '"@ + v
                + "' not found in source text"@,
        }
    }
}

/// Why a skill did not deliver.
#[derive(Debug, PartialEq, Eq)]
pub enum SkillError {
    /// The input text is empty.
    EmptyInput,
    /// The target is none that the skill knows.
    InvalidTarget(String),
    /// The skill's output is no JSON object.
    MalformedOutput(String),
    /// The output lacks what the target asks for.
    SchemaViolation(String),
    /// An extracted value does not stand in the source text.
    HallucinationDetected(String),
}

impl View for SkillError {
    type V = SkillErrorView;

    open spec fn view(&self) -> SkillErrorView {
        match self {
            SkillError::EmptyInput => SkillErrorView::EmptyInput,
            SkillError::InvalidTarget(t) => SkillErrorView::InvalidTarget(t@),
            SkillError::MalformedOutput(m) => SkillErrorView::MalformedOutput(m@),
            SkillError::SchemaViolation(m) => SkillErrorView::SchemaViolation(m@),
            SkillError::HallucinationDetected(v) => SkillErrorView::HallucinationDetected(v@),
        }
    }
}

impl Clone for SkillError {
    fn clone(&self) -> (r: Self)
        ensures
            r@ == self@,
    {
        match self {
            SkillError::EmptyInput => SkillError::EmptyInput,
            SkillError::InvalidTarget(t) => SkillError::InvalidTarget(t.clone()),
            SkillError::MalformedOutput(m) => SkillError::MalformedOutput(m.clone()),
            SkillError::SchemaViolation(m) => SkillError::SchemaViolation(m.clone()),
            SkillError::HallucinationDetected(v) => SkillError::HallucinationDetected(v.clone()),
        }
    }
}

impl SkillError {
    /// The error as a line of text.
    pub fn to_string(&self) -> (r: String)
        ensures
            r@ == self@.describe(),
    {
        match self {
            SkillError::EmptyInput => String::from_str("EmptyInput: the input text is empty"),
            SkillError::InvalidTarget(t) => String::from_str(
                "InvalidTarget: unknown target '",
            ).concat(t.as_str()).concat("'"),
            SkillError::MalformedOutput(m) => String::from_str("MalformedOutput: ").concat(
                m.as_str(),
            ),
            SkillError::SchemaViolation(m) => String::from_str("SchemaViolation: ").concat(
                m.as_str(),
            ),
            SkillError::HallucinationDetected(v) => String::from_str(
                "HallucinationDetected: '",
            ).concat(v.as_str()).concat("' not found in source text"),
        }
    }
}

/// The result of a skill operation.
pub type SkillResult<T> = Result<T, SkillError>;

/// Model of an [`ExtractionInput`].
pub ghost struct ExtractionInputView {
    pub text: Seq<char>,
    pub target: Seq<char>,
}

impl ExtractionInputView {
    /// What validating the input gives: the target, or why the input is
    /// refused. An empty text is refused before the target is looked at.
    pub open spec fn validated(self) -> Result<ExtractionTarget, SkillErrorView> {
        if self.text.len() == 0 {
            Err(SkillErrorView::EmptyInput)
        } else {
            match ExtractionTarget::named(lowercase(self.target)) {
                Some(t) => Ok(t),
                None => Err(SkillErrorView::InvalidTarget(self.target)),
            }
        }
    }
}

/// What the extraction skill is given.
#[derive(Debug)]
pub struct ExtractionInput {
    /// The text to extract from.
    pub text: String,
    /// What to extract.
    pub target: String,
}

impl View for ExtractionInput {
    type V = ExtractionInputView;

    open spec fn view(&self) -> ExtractionInputView {
        ExtractionInputView { text: self.text@, target: self.target@ }
    }
}

impl Clone for ExtractionInput {
    fn clone(&self) -> (r: Self)
        ensures
            r@ == self@,
    {
        ExtractionInput { text: self.text.clone(), target: self.target.clone() }
    }
}

/// The same result with the error as its model.
pub open spec fn result_view<T>(r: Result<T, SkillError>) -> Result<T, SkillErrorView> {
    match r {
        Ok(t) => Ok(t),
        Err(e) => Err(e@),
    }
}

impl ExtractionInput {
    /// The input that asks for `target` in `text`.
    pub fn new(text: &str, target: &str) -> (r: Self)
        ensures
            r@ == (ExtractionInputView { text: text@, target: target@ }),
    {
        ExtractionInput { text: text.to_owned(), target: target.to_owned() }
    }

    /// The target asked for, or why the input is refused.
    pub fn validate(&self) -> (r: Result<ExtractionTarget, SkillError>)
        ensures
            result_view(r) == self@.validated(),
    {
        if self.text.as_str().unicode_len() == 0 {
            return Err(SkillError::EmptyInput);
        }
        match ExtractionTarget::from_str(self.target.as_str()) {
            Some(t) => Ok(t),
            None => Err(SkillError::InvalidTarget(self.target.clone())),
        }
    }
}

/// The JSON array of the given strings.
pub open spec fn string_array(values: Seq<String>) -> JsonValue {
    JsonValue::Array(Seq::new(values.len(), |i: int| JsonValue::Str(values[i]@)))
}

/// The JSON object with one member.
pub open spec fn object_of(key: Seq<char>, value: JsonValue) -> JsonValue {
    JsonValue::Object(seq![(key, value)])
}

/// The JSON array of the given strings.
pub fn json_strings(values: Vec<String>) -> (r: Json)
    ensures
        r@ == string_array(values@),
{
    let mut items: Vec<Json> = Vec::new();
    let mut i: usize = 0;
    while i < values.len()
        invariant
            i <= values.len(),
            items.len() == i,
            forall|j: int| 0 <= j < i ==> (#[trigger] items@[j])@ == JsonValue::Str(values@[j]@),
        decreases values.len() - i,
    {
        items.push(Json::Str(values[i].clone()));
        i += 1;
    }
    let r = Json::Array(items);
    assert(r@->Array_0 =~= string_array(values@)->Array_0);
    r
}

/// The JSON object with one member.
pub fn json_object(key: &str, value: Json) -> (r: Json)
    ensures
        r@ == object_of(key@, value@),
{
    let mut members: Vec<(String, Json)> = Vec::new();
    members.push((key.to_owned(), value));
    let r = Json::Object(members);
    assert(r@->Object_0 =~= object_of(key@, value@)->Object_0);
    r
}

/// What the extraction skill returns: a JSON object with a field named
/// after the target.
#[derive(Debug)]
pub struct ExtractionOutput {
    pub result: Json,
}

impl View for ExtractionOutput {
    type V = JsonValue;

    open spec fn view(&self) -> JsonValue {
        self.result@
    }
}

impl Clone for ExtractionOutput {
    fn clone(&self) -> (r: Self)
        ensures
            r@ == self@,
    {
        ExtractionOutput { result: self.result.clone() }
    }
}

impl ExtractionOutput {
    /// The output of an email extraction.
    pub fn emails(emails: Vec<String>) -> (r: Self)
        ensures
            r@ == object_of("email"@, string_array(emails@)),
    {
        ExtractionOutput { result: json_object("email", json_strings(emails)) }
    }

    /// The output of a URL extraction.
    pub fn urls(urls: Vec<String>) -> (r: Self)
        ensures
            r@ == object_of("url"@, string_array(urls@)),
    {
        ExtractionOutput { result: json_object("url", json_strings(urls)) }
    }

    /// The output of a date extraction.
    pub fn dates(dates: Vec<String>) -> (r: Self)
        ensures
            r@ == object_of("date"@, string_array(dates@)),
    {
        ExtractionOutput { result: json_object("date", json_strings(dates)) }
    }

    /// The output of an entity extraction.
    pub fn entities(people: Vec<String>, orgs: Vec<String>, locations: Vec<String>) -> (r: Self)
        ensures
            r@ == object_of(
                "entity"@,
                JsonValue::Object(
                    seq![
                        ("people"@, string_array(people@)),
                        ("organizations"@, string_array(orgs@)),
                        ("locations"@, string_array(locations@)),
                    ],
                ),
            ),
    {
        let ghost expected = seq![
            ("people"@, string_array(people@)),
            ("organizations"@, string_array(orgs@)),
            ("locations"@, string_array(locations@)),
        ];
        let mut members: Vec<(String, Json)> = Vec::new();
        members.push(("people".to_owned(), json_strings(people)));
        members.push(("organizations".to_owned(), json_strings(orgs)));
        members.push(("locations".to_owned(), json_strings(locations)));
        let entity = Json::Object(members);
        assert(entity@->Object_0 =~= expected);
        ExtractionOutput { result: json_object("entity", entity) }
    }

    /// Whether the output has the field that the target asks for.
    pub fn has_target_field(&self, target: ExtractionTarget) -> (r: bool)
        ensures
            r == (self@.member(target.name()) is Some),
    {
        self.result.get(target.as_str()).is_some()
    }

    /// The output as JSON text.
    pub fn to_json(&self) -> (r: String)
        ensures
            r@ == json_text(self@),
    {
        self.result.to_text()
    }

    /// The output that a JSON document stands for.
    pub fn from_json(value: Json) -> (r: Result<Self, SkillError>)
        ensures
            r matches Ok(out) && out@ == value@,
    {
        Ok(ExtractionOutput { result: value })
    }
}

/// Model of a [`SkillRequest`].
pub ghost struct SkillRequestView {
    pub skill: Seq<char>,
    pub params: JsonValue,
}

impl SkillRequestView {
    /// The extraction input that the parameters hold, or the field that
    /// is missing or is no string; `text` is looked at first.
    pub open spec fn extraction_input(self) -> Result<ExtractionInputView, SkillErrorView> {
        match self.params.text_member("text"@) {
            None => Err(SkillErrorView::SchemaViolation("missing 'text' field"@)),
            Some(text) => match self.params.text_member("target"@) {
                None => Err(SkillErrorView::SchemaViolation("missing 'target' field"@)),
                Some(target) => Ok(ExtractionInputView { text, target }),
            },
        }
    }
}

/// Whether `name` is a skill of this library.
pub open spec fn valid_skill(name: Seq<char>) -> bool {
    name == "extract"@
}

/// Whether `name` is a skill of this library.
pub fn is_valid_skill(name: &str) -> (r: bool)
    ensures
        r == valid_skill(name@),
{
    str_eq(name, "extract")
}

/// A skill invocation that the model asked for.
#[derive(Debug)]
pub struct SkillRequest {
    /// The skill's name, such as `extract`.
    pub skill: String,
    /// The parameters: every member of the model's JSON object but `skill`.
    pub params: Json,
}

impl View for SkillRequest {
    type V = SkillRequestView;

    open spec fn view(&self) -> SkillRequestView {
        SkillRequestView { skill: self.skill@, params: self.params@ }
    }
}

impl Clone for SkillRequest {
    fn clone(&self) -> (r: Self)
        ensures
            r@ == self@,
    {
        SkillRequest { skill: self.skill.clone(), params: self.params.clone() }
    }
}

impl SkillRequest {
    /// The request for `skill` with the given parameters.
    pub fn new(skill: &str, params: Json) -> (r: Self)
        ensures
            r@ == (SkillRequestView { skill: skill@, params: params@ }),
    {
        SkillRequest { skill: skill.to_owned(), params }
    }

    /// Whether the request is for the extraction skill.
    pub fn is_extraction(&self) -> (r: bool)
        ensures
            r == (self@.skill == "extract"@),
    {
        str_eq(self.skill.as_str(), "extract")
    }

    /// The extraction input that the parameters hold.
    pub fn parse_extraction_input(&self) -> (r: Result<ExtractionInput, SkillError>)
        ensures
            match r {
                Ok(input) => self@.extraction_input() == Ok::<
                    ExtractionInputView,
                    SkillErrorView,
                >(input@),
                Err(e) => self@.extraction_input() == Err::<ExtractionInputView, SkillErrorView>(
                    e@,
                ),
            },
    {
        let text = match self.params.get_str("text") {
            Some(t) => t,
            None => {
                return Err(SkillError::SchemaViolation("missing 'text' field".to_owned()));
            },
        };
        let target = match self.params.get_str("target") {
            Some(t) => t,
            None => {
                return Err(SkillError::SchemaViolation("missing 'target' field".to_owned()));
            },
        };
        Ok(ExtractionInput::new(text, target))
    }
}

/// What a skill is registered under.
#[derive(Clone, Copy, Debug)]
pub struct SkillMetadata {
    pub name: &'static str,
    pub description: &'static str,
    pub version: &'static str,
}

/// The extraction skill's registration.
pub fn extraction_skill() -> (r: SkillMetadata)
    ensures
        r.name@ == "extract"@,
        r.description@ == "Extract structured information from unstructured text"@,
        r.version@ == "1.0.0"@,
{
    SkillMetadata {
        name: "extract",
        description: "Extract structured information from unstructured text",
        version: "1.0.0",
    }
}

/// An extracted value stands, ignoring case, in the source text, which
/// is given in lower case.
pub open spec fn grounded(source_lower: Seq<char>, value: Seq<char>) -> bool {
    contains(source_lower, lowercase(value))
}

/// Some whitespace-separated word of an extracted value stands in the
/// source text, ignoring case. A value without words does not.
pub open spec fn loosely_grounded(source_lower: Seq<char>, value: Seq<char>) -> bool {
    exists|k: int| 0 <= k < words(value).len() && grounded(source_lower, #[trigger] words(value)[k])
}

/// An extracted value passes: by its words for a compound target, as a
/// whole for the others.
pub open spec fn accepted(source_lower: Seq<char>, value: Seq<char>, by_word: bool) -> bool {
    if by_word {
        loosely_grounded(source_lower, value)
    } else {
        grounded(source_lower, value)
    }
}

/// The first string among `items` that does not pass; items that are no
/// strings are passed over.
pub open spec fn first_rejected(
    source_lower: Seq<char>,
    items: Seq<JsonValue>,
    by_word: bool,
) -> Option<Seq<char>>
    decreases items.len(),
{
    if items.len() == 0 {
        None
    } else if items[0] is Str && !accepted(source_lower, items[0]->Str_0, by_word) {
        Some(items[0]->Str_0)
    } else {
        first_rejected(source_lower, items.drop_first(), by_word)
    }
}

/// The first value of a plain target's field that does not stand in the
/// source: the field is a string, or an array whose strings count.
pub open spec fn plain_violation(source_lower: Seq<char>, field: JsonValue) -> Option<Seq<char>> {
    match field {
        JsonValue::Str(s) => if grounded(source_lower, s) {
            None
        } else {
            Some(s)
        },
        JsonValue::Array(items) => first_rejected(source_lower, items, false),
        _ => None,
    }
}

/// The first value of one list of an entity that has no word in the
/// source; a list that is missing or no array holds no such value.
pub open spec fn list_violation(
    source_lower: Seq<char>,
    entity: JsonValue,
    list: Seq<char>,
) -> Option<Seq<char>> {
    match entity.member(list) {
        Some(JsonValue::Array(items)) => first_rejected(source_lower, items, true),
        _ => None,
    }
}

/// The first value of an entity that has no word in the source, its
/// lists taken in the order people, organizations, locations.
pub open spec fn entity_violation(source_lower: Seq<char>, entity: JsonValue) -> Option<Seq<char>> {
    if list_violation(source_lower, entity, "people"@) is Some {
        list_violation(source_lower, entity, "people"@)
    } else if list_violation(source_lower, entity, "organizations"@) is Some {
        list_violation(source_lower, entity, "organizations"@)
    } else {
        list_violation(source_lower, entity, "locations"@)
    }
}

/// The message for an output that lacks the target's field.
pub open spec fn missing_field_message(target: ExtractionTarget) -> Seq<char> {
    "output missing '"@ + target.name() + "' field"@
}

/// What checking an output against its source gives: a schema violation
/// where the target's field is missing, the first value without ground
/// in the source as a hallucination, and success else.
pub open spec fn validation_of(source: Seq<char>, output: JsonValue, target: ExtractionTarget) -> Result<
    (),
    SkillErrorView,
> {
    match output.member(target.name()) {
        None => Err(SkillErrorView::SchemaViolation(missing_field_message(target))),
        Some(field) => {
            let violation = if target is Entity {
                entity_violation(lowercase(source), field)
            } else {
                plain_violation(lowercase(source), field)
            };
            match violation {
                Some(value) => Err(SkillErrorView::HallucinationDetected(value)),
                None => Ok(()),
            }
        },
    }
}

/// An email that is extracted alone passes exactly where it stands in
/// the source text, ignoring case; else it is the hallucination
/// reported.
pub proof fn lemma_lone_email_must_stand_in_source(source: Seq<char>, email: Seq<char>)
    ensures
        validation_of(
            source,
            object_of("email"@, JsonValue::Array(seq![JsonValue::Str(email)])),
            ExtractionTarget::Email,
        ) == if contains(lowercase(source), lowercase(email)) {
            Ok::<(), SkillErrorView>(())
        } else {
            Err::<(), SkillErrorView>(SkillErrorView::HallucinationDetected(email))
        },
{
    let items = seq![JsonValue::Str(email)];
    let members = seq![("email"@, JsonValue::Array(items))];
    assert(crate::json::lookup(members, "email"@) == Some(JsonValue::Array(items)));
    assert(first_rejected(lowercase(source), items.drop_first(), false) is None);
}

/// The same option with the text as its model.
pub open spec fn text_view(r: Option<&str>) -> Option<Seq<char>> {
    match r {
        Some(s) => Some(s@),
        None => None,
    }
}

/// Whether an extracted value stands in the source text, ignoring case.
/// `source_lower` holds the source in lower case.
pub fn is_grounded(source_lower: &Vec<char>, value: &str) -> (r: bool)
    ensures
        r == grounded(source_lower@, value@),
{
    let needle = lowercase_chars(value);
    contains_chars(source_lower, &needle)
}

/// Whether some word of an extracted value stands in the source text,
/// ignoring case. `source_lower` holds the source in lower case.
pub fn is_loosely_grounded(source_lower: &Vec<char>, value: &str) -> (r: bool)
    ensures
        r == loosely_grounded(source_lower@, value@),
{
    let cs = chars_of(value);
    let bounds = word_bounds(&cs);
    let mut i: usize = 0;
    while i < bounds.len()
        invariant
            i <= bounds.len(),
            cs@ == value@,
            texts_of(cs@, bounds@) == words(value@),
            forall|k: int| 0 <= k < bounds.len() ==> (#[trigger] bounds[k]).0 < bounds[k].1 <= cs.len(),
            forall|k: int| 0 <= k < i ==> !grounded(source_lower@, #[trigger] words(value@)[k]),
        decreases bounds.len() - i,
    {
        let (a, b) = bounds[i];
        let word = value.substring_char(a, b);
        assert(word@ == texts_of(cs@, bounds@)[i as int]);
        if is_grounded(source_lower, word) {
            return true;
        }
        i += 1;
    }
    false
}

/// The first string among `items` that does not pass.
pub fn find_rejected<'a>(source_lower: &Vec<char>, items: &'a Vec<Json>, by_word: bool) -> (r:
    Option<&'a str>)
    ensures
        text_view(r) == first_rejected(source_lower@, (Json::Array(*items))@->Array_0, by_word),
{
    let ghost all = (Json::Array(*items))@->Array_0;
    let mut i: usize = 0;
    assert(all.skip(0) =~= all);
    while i < items.len()
        invariant
            i <= items.len(),
            all == (Json::Array(*items))@->Array_0,
            first_rejected(source_lower@, all, by_word) == first_rejected(
                source_lower@,
                all.skip(i as int),
                by_word,
            ),
        decreases items.len() - i,
    {
        let ghost rest = all.skip(i as int);
        assert(rest[0] == items@[i as int]@);
        assert(rest.drop_first() =~= all.skip(i + 1));
        match &items[i] {
            Json::Str(s) => {
                let ok = if by_word {
                    is_loosely_grounded(source_lower, s.as_str())
                } else {
                    is_grounded(source_lower, s.as_str())
                };
                if !ok {
                    return Some(s.as_str());
                }
            },
            _ => {},
        }
        i += 1;
    }
    None
}

/// The first value of one list of an entity that has no word in the
/// source.
pub fn find_list_violation<'a>(source_lower: &Vec<char>, entity: &'a Json, list: &str) -> (r:
    Option<&'a str>)
    ensures
        text_view(r) == list_violation(source_lower@, entity@, list@),
{
    match entity.get(list) {
        Some(Json::Array(items)) => find_rejected(source_lower, items, true),
        _ => None,
    }
}

/// Checks an output against the text it was extracted from: the target's
/// field must be there, and every extracted string must stand in the
/// text, ignoring case; for an entity one word of each name is enough.
pub fn validate_extraction_output(
    input: &ExtractionInput,
    output: &ExtractionOutput,
    target: ExtractionTarget,
) -> (r: Result<(), SkillError>)
    ensures
        result_view(r) == validation_of(input@.text, output@, target),
{
    let field = match output.result.get(target.as_str()) {
        Some(f) => f,
        None => {
            let message = String::from_str("output missing '").concat(target.as_str()).concat(
                "' field",
            );
            return Err(SkillError::SchemaViolation(message));
        },
    };
    let source_lower = lowercase_chars(input.text.as_str());
    let violation = match target {
        ExtractionTarget::Entity => {
            match find_list_violation(&source_lower, field, "people") {
                Some(v) => Some(v),
                None => match find_list_violation(&source_lower, field, "organizations") {
                    Some(v) => Some(v),
                    None => find_list_violation(&source_lower, field, "locations"),
                },
            }
        },
        _ => match field {
            Json::Str(s) => if is_grounded(&source_lower, s.as_str()) {
                None
            } else {
                Some(s.as_str())
            },
            Json::Array(items) => find_rejected(&source_lower, items, false),
            _ => None,
        },
    };
    match violation {
        Some(value) => Err(SkillError::HallucinationDetected(value.to_owned())),
        None => Ok(()),
    }
}

/// What reading a skill's output gives, by what the JSON parser made of
/// the trimmed text: malformed where it is no JSON or no object, a
/// schema violation where the target's field is missing, and else the
/// document.
pub open spec fn parsed_output(parsed: Result<JsonValue, Seq<char>>, target: ExtractionTarget) -> Result<
    JsonValue,
    SkillErrorView,
> {
    match parsed {
        Err(message) => Err(SkillErrorView::MalformedOutput("invalid JSON: "@ + message)),
        Ok(doc) => if !(doc is Object) {
            Err(SkillErrorView::MalformedOutput("output must be a JSON object"@))
        } else if doc.member(target.name()) is None {
            Err(SkillErrorView::SchemaViolation(missing_field_message(target)))
        } else {
            Ok(doc)
        },
    }
}

/// The output that a parsed document stands for, or why it is refused.
pub fn check_parsed_output(parsed: Result<Json, String>, target: ExtractionTarget) -> (r: Result<
    ExtractionOutput,
    SkillError,
>)
    ensures
        match r {
            Ok(out) => parsed_output(crate::protocol::parsed_view(parsed), target) == Ok::<
                JsonValue,
                SkillErrorView,
            >(out@),
            Err(e) => parsed_output(crate::protocol::parsed_view(parsed), target) == Err::<
                JsonValue,
                SkillErrorView,
            >(e@),
        },
{
    match parsed {
        Err(message) => Err(
            SkillError::MalformedOutput(String::from_str("invalid JSON: ").concat(message.as_str())),
        ),
        Ok(doc) => {
            if !doc.is_object() {
                return Err(SkillError::MalformedOutput("output must be a JSON object".to_owned()));
            }
            if doc.get(target.as_str()).is_none() {
                let message = String::from_str("output missing '").concat(target.as_str()).concat(
                    "' field",
                );
                return Err(SkillError::SchemaViolation(message));
            }
            Ok(ExtractionOutput { result: doc })
        },
    }
}

/// Reads a skill's raw output as the JSON object that the target asks
/// for.
pub fn parse_skill_output(output: &str, target: ExtractionTarget) -> (r: Result<
    ExtractionOutput,
    SkillError,
>)
    ensures
        match r {
            Ok(out) => parsed_output(json_parse(trimmed(output@)), target) == Ok::<
                JsonValue,
                SkillErrorView,
            >(out@),
            Err(e) => parsed_output(json_parse(trimmed(output@)), target) == Err::<
                JsonValue,
                SkillErrorView,
            >(e@),
        },
{
    let text = trim(output);
    check_parsed_output(Json::parse(text), target)
}

/// Model of a [`SkillResponse`].
pub ghost struct SkillResponseView {
    pub success: bool,
    pub output: Option<JsonValue>,
    pub error: Option<Seq<char>>,
}

impl SkillResponseView {
    /// The response as JSON text: the output where there is one, else
    /// an object that holds the error, else the empty object.
    pub open spec fn text(self) -> Seq<char> {
        match self.output {
            Some(output) => json_text(output),
            None => match self.error {
                Some(e) => json_text(object_of("error"@, JsonValue::Str(e))),
                None => "{}"@,
            },
        }
    }

    /// What the response reads as in the conversation.
    pub open spec fn message(self) -> Seq<char> {
        if self.success {
            "Skill output:\n"@ + self.text()
        } else {
            "Skill failed: "@ + match self.error {
                Some(e) => e,
                None => "unknown error"@,
            }
        }
    }
}

/// What running a skill gave: its output, or the error as text.
#[derive(Debug)]
pub struct SkillResponse {
    pub success: bool,
    pub output: Option<Json>,
    pub error: Option<String>,
}

impl View for SkillResponse {
    type V = SkillResponseView;

    open spec fn view(&self) -> SkillResponseView {
        SkillResponseView {
            success: self.success,
            output: match self.output {
                Some(o) => Some(o@),
                None => None,
            },
            error: match self.error {
                Some(e) => Some(e@),
                None => None,
            },
        }
    }
}

impl SkillResponse {
    /// The response that carries an output.
    pub fn success(output: ExtractionOutput) -> (r: Self)
        ensures
            r@ == (SkillResponseView { success: true, output: Some(output@), error: None }),
    {
        SkillResponse { success: true, output: Some(output.result), error: None }
    }

    /// The response that carries an error, as its line of text.
    pub fn failure(error: SkillError) -> (r: Self)
        ensures
            r@ == (SkillResponseView {
                success: false,
                output: None,
                error: Some(error@.describe()),
            }),
    {
        SkillResponse { success: false, output: None, error: Some(error.to_string()) }
    }

    /// The response as JSON text.
    pub fn to_json(&self) -> (r: String)
        ensures
            r@ == self@.text(),
    {
        match &self.output {
            Some(output) => output.to_text(),
            None => match &self.error {
                Some(e) => json_object("error", Json::Str(e.clone())).to_text(),
                None => "{}".to_owned(),
            },
        }
    }

    /// What the response reads as in the conversation.
    pub fn to_message(&self) -> (r: String)
        ensures
            r@ == self@.message(),
    {
        if self.success {
            String::from_str("Skill output:\n").concat(self.to_json().as_str())
        } else {
            let reason = match &self.error {
                Some(e) => e.as_str(),
                None => "unknown error",
            };
            String::from_str("Skill failed: ").concat(reason)
        }
    }
}

/// The message for a target that the command line does not know.
pub open spec fn unknown_target_message(value: Seq<char>) -> Seq<char> {
    "Invalid target '"@ + value + "'. Expected one of: email, url, date, entity"@
}

/// The target that a command-line value names, or the message that says
/// it names none.
pub fn parse_target(value: &str) -> (r: Result<ExtractionTarget, String>)
    ensures
        match ExtractionTarget::named(lowercase(value@)) {
            Some(target) => r == Ok::<ExtractionTarget, String>(target),
            None => r matches Err(message) && message@ == unknown_target_message(value@),
        },
{
    match ExtractionTarget::from_str(value) {
        Some(target) => Ok(target),
        None => Err(
            String::from_str("Invalid target '").concat(value).concat(
                "'. Expected one of: email, url, date, entity",
            ),
        ),
    }
}

} // verus!
