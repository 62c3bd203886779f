//! Decoding an untyped value into a `Resume`, with the exact location of the
//! first problem found.
//!
//! Fields are checked in declaration order and the first failure stops the
//! walk. A path names the failing field from the document root: `basics.email`,
//! `work[0].position`.
use crate::documents::{
    Award, Basics, Certification, Education, Language, Profile, Project, Resume, Skill,
    WorkExperience,
};
use crate::json::{fields, find_member, items, kind_name, kind_text, member, JsonValue};
use crate::text::{decimal, push_decimal};
use vstd::prelude::*;

verus! {

/// One validation problem and where it was found.
#[derive(Debug)]
pub struct ValidationError {
    pub path: String,
    pub message: String,
}

impl ValidationError {
    /// A validation error at `path`.
    pub fn new(path: &str, message: &str) -> (r: Self)
        ensures
            r.path@ == path@,
            r.message@ == message@,
    {
        ValidationError { path: String::from_str(path), message: String::from_str(message) }
    }

    /// The error as a (path, message) pair.
    pub open spec fn view_pair(&self) -> (Seq<char>, Seq<char>) {
        (self.path@, self.message@)
    }
}

/// A problem as a (path, message) pair.
pub type ErrView = (Seq<char>, Seq<char>);

/// The path of member `key` below `path`.
pub open spec fn child(path: Seq<char>, key: Seq<char>) -> Seq<char> {
    if path.len() == 0 {
        key
    } else {
        path + "."@ + key
    }
}

/// The path of item `i` of the list at `path`.
pub open spec fn indexed(path: Seq<char>, i: nat) -> Seq<char> {
    path + "["@ + decimal(i) + "]"@
}

/// A required member `key` is absent.
pub open spec fn missing_error(path: Seq<char>, key: Seq<char>) -> ErrView {
    (child(path, key), "Missing required field: "@ + key)
}

/// The value at `path` is of the wrong kind.
pub open spec fn type_error(v: JsonValue, path: Seq<char>, expected: Seq<char>) -> ErrView {
    (path, "invalid type: "@ + kind_text(v) + ", expected "@ + expected)
}

/// `a` if it holds a problem, else `b`.
pub open spec fn or_else(a: Option<ErrView>, b: Option<ErrView>) -> Option<ErrView> {
    if a is Some {
        a
    } else {
        b
    }
}

/// An optional text as an optional sequence of characters.
pub open spec fn opt_string_view(o: Option<String>) -> Option<Seq<char>> {
    match o {
        Some(s) => Some(s@),
        None => None,
    }
}

/// Texts as sequences of characters.
pub open spec fn strings_view(v: Seq<String>) -> Seq<Seq<char>> {
    v.map_values(|s: String| s@)
}

// ---- required and optional text ----

/// The problem with required text member `key`, if any.
pub open spec fn text_error(ms: Seq<(String, JsonValue)>, key: Seq<char>, path: Seq<char>) -> Option<ErrView> {
    match member(ms, key) {
        None => Some(missing_error(path, key)),
        Some(JsonValue::Str(_)) => None,
        Some(v) => Some(type_error(v, child(path, key), "a string"@)),
    }
}

/// The text of member `key`.
pub open spec fn text_value(ms: Seq<(String, JsonValue)>, key: Seq<char>) -> Seq<char> {
    match member(ms, key) {
        Some(JsonValue::Str(s)) => s@,
        _ => Seq::empty(),
    }
}

/// The problem with optional text member `key`, if any; `null` counts as absent.
pub open spec fn opt_text_error(ms: Seq<(String, JsonValue)>, key: Seq<char>, path: Seq<char>) -> Option<ErrView> {
    match member(ms, key) {
        None => None,
        Some(JsonValue::Null) => None,
        Some(JsonValue::Str(_)) => None,
        Some(v) => Some(type_error(v, child(path, key), "a string"@)),
    }
}

/// The text of optional member `key`, if present.
pub open spec fn opt_text_value(ms: Seq<(String, JsonValue)>, key: Seq<char>) -> Option<Seq<char>> {
    match member(ms, key) {
        Some(JsonValue::Str(s)) => Some(s@),
        _ => None,
    }
}

// ---- lists of text ----

/// The first item from `k` on that is not a string.
pub open spec fn texts_error_from(items: Seq<JsonValue>, path: Seq<char>, k: int) -> Option<ErrView>
    decreases items.len() - k,
{
    if k < 0 || k >= items.len() {
        None
    } else {
        match items[k] {
            JsonValue::Str(_) => texts_error_from(items, path, k + 1),
            _ => Some(type_error(items[k], indexed(path, k as nat), "a string"@)),
        }
    }
}

/// The texts of a list of strings.
pub open spec fn text_items(items: Seq<JsonValue>) -> Seq<Seq<char>> {
    items.map_values(
        |x: JsonValue|
            match x {
                JsonValue::Str(s) => s@,
                _ => Seq::empty(),
            },
    )
}

/// The problem with list-of-text member `key`, if any; absent means empty.
pub open spec fn text_list_error(
    ms: Seq<(String, JsonValue)>,
    key: Seq<char>,
    path: Seq<char>,
) -> Option<ErrView> {
    match member(ms, key) {
        None => None,
        Some(JsonValue::Array(items)) => texts_error_from(items@, child(path, key), 0),
        Some(v) => Some(type_error(v, child(path, key), "a list"@)),
    }
}

/// The texts of list member `key`; none when absent.
pub open spec fn text_list_value(ms: Seq<(String, JsonValue)>, key: Seq<char>) -> Seq<Seq<char>> {
    match member(ms, key) {
        Some(JsonValue::Array(items)) => text_items(items@),
        _ => Seq::empty(),
    }
}

/// As `text_list_error`, with `null` counting as absent.
pub open spec fn opt_text_list_error(
    ms: Seq<(String, JsonValue)>,
    key: Seq<char>,
    path: Seq<char>,
) -> Option<ErrView> {
    match member(ms, key) {
        Some(JsonValue::Null) => None,
        _ => text_list_error(ms, key, path),
    }
}

/// The texts of optional list member `key`, if present.
pub open spec fn opt_text_list_value(ms: Seq<(String, JsonValue)>, key: Seq<char>) -> Option<
    Seq<Seq<char>>,
> {
    match member(ms, key) {
        Some(JsonValue::Array(items)) => Some(text_items(items@)),
        _ => None,
    }
}

/// An optional list of texts as sequences of characters.
pub open spec fn opt_strings_view(o: Option<Vec<String>>) -> Option<Seq<Seq<char>>> {
    match o {
        Some(v) => Some(strings_view(v@)),
        None => None,
    }
}

// ---- records ----

/// A record type decoded from a JSON object.
pub trait Decode: Sized {
    /// The first problem in `v` read as this record at `path`, if any.
    spec fn error_of(v: JsonValue, path: Seq<char>) -> Option<ErrView>;

    /// `r` holds what `v` holds.
    spec fn decodes_to(v: JsonValue, r: Self) -> bool;

    /// Decodes `v`, found at `path`.
    fn decode(v: &JsonValue, path: &String) -> (r: Result<Self, ValidationError>)
        ensures
            match r {
                Ok(t) => Self::error_of(*v, path@) is None && Self::decodes_to(*v, t),
                Err(e) => Self::error_of(*v, path@) == Some(e.view_pair()),
            },
    ;
}

/// The first item from `k` on that is not a valid record.
pub open spec fn records_error_from<T: Decode>(items: Seq<JsonValue>, path: Seq<char>, k: int) -> Option<
    ErrView,
>
    decreases items.len() - k,
{
    if k < 0 || k >= items.len() {
        None
    } else if T::error_of(items[k], indexed(path, k as nat)) is Some {
        T::error_of(items[k], indexed(path, k as nat))
    } else {
        records_error_from::<T>(items, path, k + 1)
    }
}

/// Each record holds what the matching item holds.
pub open spec fn records_match<T: Decode>(items: Seq<JsonValue>, rs: Seq<T>) -> bool {
    &&& items.len() == rs.len()
    &&& forall|i: int| 0 <= i < items.len() ==> T::decodes_to(#[trigger] items[i], rs[i])
}

/// The problem with required record member `key`, if any.
pub open spec fn record_error<T: Decode>(
    ms: Seq<(String, JsonValue)>,
    key: Seq<char>,
    path: Seq<char>,
) -> Option<ErrView> {
    match member(ms, key) {
        None => Some(missing_error(path, key)),
        Some(v) => T::error_of(v, child(path, key)),
    }
}

/// `r` holds what record member `key` holds.
pub open spec fn record_match<T: Decode>(ms: Seq<(String, JsonValue)>, key: Seq<char>, r: T) -> bool {
    match member(ms, key) {
        Some(v) => T::decodes_to(v, r),
        None => false,
    }
}

/// The problem with list-of-records member `key`, if any; absent means empty.
pub open spec fn record_list_error<T: Decode>(
    ms: Seq<(String, JsonValue)>,
    key: Seq<char>,
    path: Seq<char>,
) -> Option<ErrView> {
    match member(ms, key) {
        None => None,
        Some(JsonValue::Array(items)) => records_error_from::<T>(items@, child(path, key), 0),
        Some(v) => Some(type_error(v, child(path, key), "a list"@)),
    }
}

/// The records hold what list member `key` holds; none when it is absent.
pub open spec fn record_list_match<T: Decode>(ms: Seq<(String, JsonValue)>, key: Seq<char>, rs: Seq<T>) -> bool {
    match member(ms, key) {
        Some(JsonValue::Array(items)) => records_match(items@, rs),
        _ => rs.len() == 0,
    }
}

// ---- building paths and errors ----

/// The path of member `key` below `path`.
pub fn child_path(path: &String, key: &str) -> (r: String)
    ensures
        r@ == child(path@, key@),
{
    if path.as_str().is_empty() {
        String::from_str(key)
    } else {
        let mut r = path.clone();
        r.append(".");
        r.append(key);
        r
    }
}

/// The path of item `i` of the list at `path`.
pub fn index_path(path: &String, i: usize) -> (r: String)
    ensures
        r@ == indexed(path@, i as nat),
{
    let mut r = path.clone();
    r.append("[");
    push_decimal(&mut r, i);
    r.append("]");
    assert(r@ =~= indexed(path@, i as nat));
    r
}

fn missing(path: &String, key: &str) -> (e: ValidationError)
    ensures
        e.view_pair() == missing_error(path@, key@),
{
    let mut message = String::from_str("Missing required field: ");
    message.append(key);
    ValidationError { path: child_path(path, key), message }
}

fn mismatch(v: &JsonValue, path: String, expected: &str) -> (e: ValidationError)
    ensures
        e.view_pair() == type_error(*v, path@, expected@),
{
    let mut message = String::from_str("invalid type: ");
    message.append(kind_name(v));
    message.append(", expected ");
    message.append(expected);
    ValidationError { path, message }
}

// ---- decoding fields ----

fn decode_text(ms: &Vec<(String, JsonValue)>, key: &str, path: &String) -> (r: Result<String, ValidationError>)
    ensures
        match r {
            Ok(s) => text_error(ms@, key@, path@) is None && s@ == text_value(ms@, key@),
            Err(e) => text_error(ms@, key@, path@) == Some(e.view_pair()),
        },
{
    match find_member(ms, key) {
        None => Err(missing(path, key)),
        Some(JsonValue::Str(s)) => Ok(s.clone()),
        Some(v) => Err(mismatch(v, child_path(path, key), "a string")),
    }
}

fn decode_opt_text(ms: &Vec<(String, JsonValue)>, key: &str, path: &String) -> (r: Result<
    Option<String>,
    ValidationError,
>)
    ensures
        match r {
            Ok(s) => opt_text_error(ms@, key@, path@) is None && opt_string_view(s) == opt_text_value(
                ms@,
                key@,
            ),
            Err(e) => opt_text_error(ms@, key@, path@) == Some(e.view_pair()),
        },
{
    match find_member(ms, key) {
        None => Ok(None),
        Some(JsonValue::Null) => Ok(None),
        Some(JsonValue::Str(s)) => Ok(Some(s.clone())),
        Some(v) => Err(mismatch(v, child_path(path, key), "a string")),
    }
}

fn decode_text_items(items: &Vec<JsonValue>, path: &String) -> (r: Result<Vec<String>, ValidationError>)
    ensures
        match r {
            Ok(v) => texts_error_from(items@, path@, 0) is None && strings_view(v@) == text_items(
                items@,
            ),
            Err(e) => texts_error_from(items@, path@, 0) == Some(e.view_pair()),
        },
{
    let mut out: Vec<String> = Vec::new();
    let mut i: usize = 0;
    while i < items.len()
        invariant
            0 <= i <= items.len(),
            out@.len() == i,
            texts_error_from(items@, path@, 0) == texts_error_from(items@, path@, i as int),
            forall|j: int| 0 <= j < i ==> (#[trigger] out@[j])@ == text_items(items@)[j],
        decreases items.len() - i,
    {
        match &items[i] {
            JsonValue::Str(s) => {
                out.push(s.clone());
            },
            v => {
                return Err(mismatch(v, index_path(path, i), "a string"));
            },
        }
        i = i + 1;
    }
    assert(strings_view(out@) =~= text_items(items@));
    Ok(out)
}

fn decode_text_list(ms: &Vec<(String, JsonValue)>, key: &str, path: &String) -> (r: Result<
    Vec<String>,
    ValidationError,
>)
    ensures
        match r {
            Ok(v) => text_list_error(ms@, key@, path@) is None && strings_view(v@) == text_list_value(
                ms@,
                key@,
            ),
            Err(e) => text_list_error(ms@, key@, path@) == Some(e.view_pair()),
        },
{
    match find_member(ms, key) {
        None => {
            let v: Vec<String> = Vec::new();
            assert(strings_view(v@) =~= Seq::<Seq<char>>::empty());
            Ok(v)
        },
        Some(JsonValue::Array(items)) => decode_text_items(items, &child_path(path, key)),
        Some(v) => Err(mismatch(v, child_path(path, key), "a list")),
    }
}

fn decode_opt_text_list(ms: &Vec<(String, JsonValue)>, key: &str, path: &String) -> (r: Result<
    Option<Vec<String>>,
    ValidationError,
>)
    ensures
        match r {
            Ok(v) => opt_text_list_error(ms@, key@, path@) is None && opt_strings_view(v)
                == opt_text_list_value(ms@, key@),
            Err(e) => opt_text_list_error(ms@, key@, path@) == Some(e.view_pair()),
        },
{
    match find_member(ms, key) {
        None => Ok(None),
        Some(JsonValue::Null) => Ok(None),
        Some(JsonValue::Array(items)) => match decode_text_items(items, &child_path(path, key)) {
            Ok(v) => Ok(Some(v)),
            Err(e) => Err(e),
        },
        Some(v) => Err(mismatch(v, child_path(path, key), "a list")),
    }
}

fn decode_record<T: Decode>(ms: &Vec<(String, JsonValue)>, key: &str, path: &String) -> (r: Result<
    T,
    ValidationError,
>)
    ensures
        match r {
            Ok(t) => record_error::<T>(ms@, key@, path@) is None && record_match::<T>(ms@, key@, t),
            Err(e) => record_error::<T>(ms@, key@, path@) == Some(e.view_pair()),
        },
{
    match find_member(ms, key) {
        None => Err(missing(path, key)),
        Some(v) => T::decode(v, &child_path(path, key)),
    }
}

fn decode_records<T: Decode>(items: &Vec<JsonValue>, path: &String) -> (r: Result<Vec<T>, ValidationError>)
    ensures
        match r {
            Ok(v) => records_error_from::<T>(items@, path@, 0) is None && records_match(items@, v@),
            Err(e) => records_error_from::<T>(items@, path@, 0) == Some(e.view_pair()),
        },
{
    let mut out: Vec<T> = Vec::new();
    let mut i: usize = 0;
    while i < items.len()
        invariant
            0 <= i <= items.len(),
            out@.len() == i,
            records_error_from::<T>(items@, path@, 0) == records_error_from::<T>(items@, path@, i as int),
            forall|j: int| 0 <= j < i ==> T::decodes_to(#[trigger] items@[j], out@[j]),
        decreases items.len() - i,
    {
        match T::decode(&items[i], &index_path(path, i)) {
            Ok(t) => {
                out.push(t);
            },
            Err(e) => {
                return Err(e);
            },
        }
        i = i + 1;
    }
    Ok(out)
}

fn decode_record_list<T: Decode>(
    ms: &Vec<(String, JsonValue)>,
    key: &str,
    path: &String,
) -> (r: Result<Vec<T>, ValidationError>)
    ensures
        match r {
            Ok(v) => record_list_error::<T>(ms@, key@, path@) is None && record_list_match::<
                T,
            >(ms@, key@, v@),
            Err(e) => record_list_error::<T>(ms@, key@, path@) == Some(e.view_pair()),
        },
{
    match find_member(ms, key) {
        None => Ok(Vec::new()),
        Some(JsonValue::Array(items)) => decode_records(items, &child_path(path, key)),
        Some(v) => Err(mismatch(v, child_path(path, key), "a list")),
    }
}

// ---- the call input ----

/// The outcome of validating a call input.
pub enum ValidationResult {
    /// The resume, echoed back.
    Valid { resume: Box<Resume> },
    /// The problems found, in order.
    Invalid { errors: Vec<ValidationError> },
}

/// The first member of the call input other than `resume`.
pub open spec fn first_unknown(ms: Seq<(String, JsonValue)>) -> Option<Seq<char>>
    decreases ms.len(),
{
    if ms.len() == 0 {
        None
    } else if ms[0].0@ != "resume"@ {
        Some(ms[0].0@)
    } else {
        first_unknown(ms.drop_first())
    }
}

/// What is wrong with the call input's shape, if anything: it must be an
/// object whose only member is `resume`.
pub open spec fn input_problem(input: JsonValue) -> Option<Seq<char>> {
    match input {
        JsonValue::Object(ms) => match first_unknown(ms@) {
            Some(k) => Some("unknown field `"@ + k + "`, expected `resume`"@),
            None => match member(ms@, "resume"@) {
                None => Some("missing field `resume`"@),
                Some(_) => None,
            },
        },
        _ => Some("invalid type: "@ + kind_text(input) + ", expected an object"@),
    }
}

/// The resume inside the call input.
pub open spec fn resume_value(input: JsonValue) -> JsonValue {
    match member(fields(input), "resume"@) {
        Some(v) => v,
        None => JsonValue::Null,
    }
}

/// The problem that validation reports for `input`, if any.
pub open spec fn validation_error(input: JsonValue) -> Option<ErrView> {
    match input_problem(input) {
        Some(p) => Some(
            (Seq::empty(), "Invalid tool input: expected object with 'resume' field. "@ + p),
        ),
        None => Resume::error_of(resume_value(input), Seq::empty()),
    }
}

fn find_unknown(ms: &Vec<(String, JsonValue)>) -> (r: Option<&String>)
    ensures
        match r {
            Some(k) => first_unknown(ms@) == Some(k@),
            None => first_unknown(ms@) is None,
        },
{
    let expected = String::from_str("resume");
    let mut i: usize = 0;
    assert(ms@.subrange(0, ms@.len() as int) =~= ms@);
    while i < ms.len()
        invariant
            0 <= i <= ms.len(),
            expected@ == "resume"@,
            first_unknown(ms@) == first_unknown(ms@.subrange(i as int, ms@.len() as int)),
        decreases ms.len() - i,
    {
        assert(ms@.subrange(i as int, ms@.len() as int).drop_first() =~= ms@.subrange(
            i + 1,
            ms@.len() as int,
        ));
        if ms[i].0 != expected {
            return Some(&ms[i].0);
        }
        i = i + 1;
    }
    None
}

fn input_error(detail: String) -> (e: ValidationError)
    ensures
        e.path@ == Seq::<char>::empty(),
        e.message@ == "Invalid tool input: expected object with 'resume' field. "@ + detail@,
{
    let mut message = String::from_str("Invalid tool input: expected object with 'resume' field. ");
    message.append(detail.as_str());
    ValidationError { path: String::new(), message }
}

/// Validates a call input of the shape `{"resume": <document>}`.
///
/// The input is valid exactly when `validation_error` finds nothing; otherwise
/// that one problem is reported.
pub fn validate_resume(input: JsonValue) -> (r: ValidationResult)
    ensures
        match r {
            ValidationResult::Valid { resume } => validation_error(input) is None
                && Resume::decodes_to(resume_value(input), *resume),
            ValidationResult::Invalid { errors } => errors@.len() == 1 && validation_error(input)
                == Some(errors@[0].view_pair()),
        },
{
    let ms = match &input {
        JsonValue::Object(ms) => ms,
        _ => {
            let mut detail = String::from_str("invalid type: ");
            detail.append(kind_name(&input));
            detail.append(", expected an object");
            return ValidationResult::Invalid { errors: vec![input_error(detail)] };
        },
    };
    match find_unknown(ms) {
        Some(k) => {
            let mut detail = String::from_str("unknown field `");
            detail.append(k.as_str());
            detail.append("`, expected `resume`");
            return ValidationResult::Invalid { errors: vec![input_error(detail)] };
        },
        None => {},
    }
    let value = match find_member(ms, "resume") {
        Some(v) => v,
        None => {
            let detail = String::from_str("missing field `resume`");
            return ValidationResult::Invalid { errors: vec![input_error(detail)] };
        },
    };
    match Resume::decode(value, &String::new()) {
        Ok(resume) => ValidationResult::Valid { resume: Box::new(resume) },
        Err(e) => {
            let errors = vec![e];
            assert(errors@[0] == e);
            ValidationResult::Invalid { errors }
        },
    }
}

/// A document whose contact block has no email is rejected, and the error is
/// located under `basics`.
pub proof fn lemma_missing_email_rejected(input: JsonValue)
    requires
        input_problem(input) is None,
        resume_value(input) is Object,
        match member(fields(resume_value(input)), "basics"@) {
            Some(b) => member(fields(b), "email"@) is None,
            None => true,
        },
    ensures
        validation_error(input) is Some,
        validation_error(input).unwrap().0.len() >= 6,
        validation_error(input).unwrap().0.subrange(0, 6) == "basics"@,
{
    reveal_strlit("basics");
    let ms = fields(resume_value(input));
    let p = validation_error(input).unwrap().0;
    match member(ms, "basics"@) {
        Some(b) => {
            if b is Object {
                let bs = fields(b);
                if member(bs, "name"@) is Some && member(bs, "name"@).unwrap() is Str {
                    assert(p == "basics"@ + "."@ + "email"@);
                } else {
                    assert(p == "basics"@ + "."@ + "name"@);
                }
            } else {
                assert(p == "basics"@);
            }
        },
        None => {
            assert(p == "basics"@);
        },
    }
    assert(p.subrange(0, 6) =~= "basics"@);
}

/// The member is absent or an empty list.
pub open spec fn absent_or_empty(o: Option<JsonValue>) -> bool {
    o is None || (o.unwrap() is Array && items(o.unwrap()).len() == 0)
}

/// A document with only the mandatory fields (a contact name and email; every
/// list section absent or empty) is valid, and every list section of the
/// result is empty.
pub proof fn lemma_minimal_is_valid(input: JsonValue, r: Resume)
    requires
        input_problem(input) is None,
        resume_value(input) is Object,
        ({
            let ms = fields(resume_value(input));
            &&& member(ms, "basics"@) is Some
            &&& member(ms, "basics"@).unwrap() is Object
            &&& member(fields(member(ms, "basics"@).unwrap()), "name"@) is Some
            &&& member(fields(member(ms, "basics"@).unwrap()), "name"@).unwrap() is Str
            &&& member(fields(member(ms, "basics"@).unwrap()), "email"@) is Some
            &&& member(fields(member(ms, "basics"@).unwrap()), "email"@).unwrap() is Str
            &&& member(fields(member(ms, "basics"@).unwrap()), "phone"@) is None
            &&& member(fields(member(ms, "basics"@).unwrap()), "location"@) is None
            &&& member(fields(member(ms, "basics"@).unwrap()), "summary"@) is None
            &&& absent_or_empty(member(fields(member(ms, "basics"@).unwrap()), "profiles"@))
            &&& absent_or_empty(member(ms, "work"@))
            &&& absent_or_empty(member(ms, "education"@))
            &&& absent_or_empty(member(ms, "skills"@))
            &&& absent_or_empty(member(ms, "projects"@))
            &&& absent_or_empty(member(ms, "certifications"@))
            &&& absent_or_empty(member(ms, "awards"@))
            &&& absent_or_empty(member(ms, "languages"@))
            &&& member(ms, "publications"@) is None
            &&& member(ms, "sectionOrder"@) is None
        }),
        Resume::decodes_to(resume_value(input), r),
    ensures
        validation_error(input) is None,
        r.work@.len() == 0,
        r.education@.len() == 0,
        r.skills@.len() == 0,
        r.projects@.len() == 0,
        r.certifications@.len() == 0,
        r.awards@.len() == 0,
        r.languages@.len() == 0,
        r.basics.profiles@.len() == 0,
        r.publications is None,
        r.section_order is None,
{
    let ms = fields(resume_value(input));
    let b = member(ms, "basics"@).unwrap();
    assert(Basics::error_of(b, "basics"@) is None);
    assert(Basics::decodes_to(b, r.basics));
}

// ---- the document's records ----

impl Decode for Profile {
    open spec fn error_of(v: JsonValue, path: Seq<char>) -> Option<ErrView> {
        match v {
            JsonValue::Object(_) => {
                let ms = fields(v);
                or_else(
                    text_error(ms, "network"@, path),
                    text_error(ms, "url"@, path),
                )
            },
            _ => Some(type_error(v, path, "an object"@)),
        }
    }

    open spec fn decodes_to(v: JsonValue, r: Profile) -> bool {
        let ms = fields(v);
        &&& r.network@ == text_value(ms, "network"@)
        &&& r.url@ == text_value(ms, "url"@)
    }

    fn decode(v: &JsonValue, path: &String) -> (r: Result<Profile, ValidationError>) {
        let ms = match v {
            JsonValue::Object(ms) => ms,
            _ => {
                return Err(mismatch(v, path.clone(), "an object"));
            },
        };
        let network = match decode_text(ms, "network", path) {
            Ok(x) => x,
            Err(e) => {
                return Err(e);
            },
        };
        let url = match decode_text(ms, "url", path) {
            Ok(x) => x,
            Err(e) => {
                return Err(e);
            },
        };
        Ok(Profile { network, url })
    }
}

impl Decode for WorkExperience {
    open spec fn error_of(v: JsonValue, path: Seq<char>) -> Option<ErrView> {
        match v {
            JsonValue::Object(_) => {
                let ms = fields(v);
                or_else(
                    text_error(ms, "company"@, path),
                    or_else(
                    text_error(ms, "position"@, path),
                    or_else(
                    opt_text_error(ms, "location"@, path),
                    or_else(
                    opt_text_error(ms, "startDate"@, path),
                    or_else(
                    opt_text_error(ms, "endDate"@, path),
                    text_list_error(ms, "highlights"@, path),
                ),
                ),
                ),
                ),
                )
            },
            _ => Some(type_error(v, path, "an object"@)),
        }
    }

    open spec fn decodes_to(v: JsonValue, r: WorkExperience) -> bool {
        let ms = fields(v);
        &&& r.company@ == text_value(ms, "company"@)
        &&& r.position@ == text_value(ms, "position"@)
        &&& opt_string_view(r.location) == opt_text_value(ms, "location"@)
        &&& opt_string_view(r.start_date) == opt_text_value(ms, "startDate"@)
        &&& opt_string_view(r.end_date) == opt_text_value(ms, "endDate"@)
        &&& strings_view(r.highlights@) == text_list_value(ms, "highlights"@)
    }

    fn decode(v: &JsonValue, path: &String) -> (r: Result<WorkExperience, ValidationError>) {
        let ms = match v {
            JsonValue::Object(ms) => ms,
            _ => {
                return Err(mismatch(v, path.clone(), "an object"));
            },
        };
        let company = match decode_text(ms, "company", path) {
            Ok(x) => x,
            Err(e) => {
                return Err(e);
            },
        };
        let position = match decode_text(ms, "position", path) {
            Ok(x) => x,
            Err(e) => {
                return Err(e);
            },
        };
        let location = match decode_opt_text(ms, "location", path) {
            Ok(x) => x,
            Err(e) => {
                return Err(e);
            },
        };
        let start_date = match decode_opt_text(ms, "startDate", path) {
            Ok(x) => x,
            Err(e) => {
                return Err(e);
            },
        };
        let end_date = match decode_opt_text(ms, "endDate", path) {
            Ok(x) => x,
            Err(e) => {
                return Err(e);
            },
        };
        let highlights = match decode_text_list(ms, "highlights", path) {
            Ok(x) => x,
            Err(e) => {
                return Err(e);
            },
        };
        Ok(WorkExperience { company, position, location, start_date, end_date, highlights })
    }
}

impl Decode for Education {
    open spec fn error_of(v: JsonValue, path: Seq<char>) -> Option<ErrView> {
        match v {
            JsonValue::Object(_) => {
                let ms = fields(v);
                or_else(
                    text_error(ms, "institution"@, path),
                    or_else(
                    opt_text_error(ms, "degree"@, path),
                    or_else(
                    opt_text_error(ms, "fieldOfStudy"@, path),
                    or_else(
                    opt_text_error(ms, "location"@, path),
                    or_else(
                    opt_text_error(ms, "startDate"@, path),
                    or_else(
                    opt_text_error(ms, "endDate"@, path),
                    or_else(
                    opt_text_error(ms, "gpa"@, path),
                    text_list_error(ms, "highlights"@, path),
                ),
                ),
                ),
                ),
                ),
                ),
                )
            },
            _ => Some(type_error(v, path, "an object"@)),
        }
    }

    open spec fn decodes_to(v: JsonValue, r: Education) -> bool {
        let ms = fields(v);
        &&& r.institution@ == text_value(ms, "institution"@)
        &&& opt_string_view(r.degree) == opt_text_value(ms, "degree"@)
        &&& opt_string_view(r.field_of_study) == opt_text_value(ms, "fieldOfStudy"@)
        &&& opt_string_view(r.location) == opt_text_value(ms, "location"@)
        &&& opt_string_view(r.start_date) == opt_text_value(ms, "startDate"@)
        &&& opt_string_view(r.end_date) == opt_text_value(ms, "endDate"@)
        &&& opt_string_view(r.gpa) == opt_text_value(ms, "gpa"@)
        &&& strings_view(r.highlights@) == text_list_value(ms, "highlights"@)
    }

    fn decode(v: &JsonValue, path: &String) -> (r: Result<Education, ValidationError>) {
        let ms = match v {
            JsonValue::Object(ms) => ms,
            _ => {
                return Err(mismatch(v, path.clone(), "an object"));
            },
        };
        let institution = match decode_text(ms, "institution", path) {
            Ok(x) => x,
            Err(e) => {
                return Err(e);
            },
        };
        let degree = match decode_opt_text(ms, "degree", path) {
            Ok(x) => x,
            Err(e) => {
                return Err(e);
            },
        };
        let field_of_study = match decode_opt_text(ms, "fieldOfStudy", path) {
            Ok(x) => x,
            Err(e) => {
                return Err(e);
            },
        };
        let location = match decode_opt_text(ms, "location", path) {
            Ok(x) => x,
            Err(e) => {
                return Err(e);
            },
        };
        let start_date = match decode_opt_text(ms, "startDate", path) {
            Ok(x) => x,
            Err(e) => {
                return Err(e);
            },
        };
        let end_date = match decode_opt_text(ms, "endDate", path) {
            Ok(x) => x,
            Err(e) => {
                return Err(e);
            },
        };
        let gpa = match decode_opt_text(ms, "gpa", path) {
            Ok(x) => x,
            Err(e) => {
                return Err(e);
            },
        };
        let highlights = match decode_text_list(ms, "highlights", path) {
            Ok(x) => x,
            Err(e) => {
                return Err(e);
            },
        };
        Ok(Education { institution, degree, field_of_study, location, start_date, end_date, gpa, highlights })
    }
}

impl Decode for Skill {
    open spec fn error_of(v: JsonValue, path: Seq<char>) -> Option<ErrView> {
        match v {
            JsonValue::Object(_) => {
                let ms = fields(v);
                or_else(
                    text_error(ms, "name"@, path),
                    text_list_error(ms, "keywords"@, path),
                )
            },
            _ => Some(type_error(v, path, "an object"@)),
        }
    }

    open spec fn decodes_to(v: JsonValue, r: Skill) -> bool {
        let ms = fields(v);
        &&& r.name@ == text_value(ms, "name"@)
        &&& strings_view(r.keywords@) == text_list_value(ms, "keywords"@)
    }

    fn decode(v: &JsonValue, path: &String) -> (r: Result<Skill, ValidationError>) {
        let ms = match v {
            JsonValue::Object(ms) => ms,
            _ => {
                return Err(mismatch(v, path.clone(), "an object"));
            },
        };
        let name = match decode_text(ms, "name", path) {
            Ok(x) => x,
            Err(e) => {
                return Err(e);
            },
        };
        let keywords = match decode_text_list(ms, "keywords", path) {
            Ok(x) => x,
            Err(e) => {
                return Err(e);
            },
        };
        Ok(Skill { name, keywords })
    }
}

impl Decode for Project {
    open spec fn error_of(v: JsonValue, path: Seq<char>) -> Option<ErrView> {
        match v {
            JsonValue::Object(_) => {
                let ms = fields(v);
                or_else(
                    text_error(ms, "name"@, path),
                    or_else(
                    opt_text_error(ms, "description"@, path),
                    or_else(
                    opt_text_error(ms, "url"@, path),
                    or_else(
                    opt_text_error(ms, "startDate"@, path),
                    or_else(
                    opt_text_error(ms, "endDate"@, path),
                    or_else(
                    text_list_error(ms, "keywords"@, path),
                    text_list_error(ms, "highlights"@, path),
                ),
                ),
                ),
                ),
                ),
                )
            },
            _ => Some(type_error(v, path, "an object"@)),
        }
    }

    open spec fn decodes_to(v: JsonValue, r: Project) -> bool {
        let ms = fields(v);
        &&& r.name@ == text_value(ms, "name"@)
        &&& opt_string_view(r.description) == opt_text_value(ms, "description"@)
        &&& opt_string_view(r.url) == opt_text_value(ms, "url"@)
        &&& opt_string_view(r.start_date) == opt_text_value(ms, "startDate"@)
        &&& opt_string_view(r.end_date) == opt_text_value(ms, "endDate"@)
        &&& strings_view(r.keywords@) == text_list_value(ms, "keywords"@)
        &&& strings_view(r.highlights@) == text_list_value(ms, "highlights"@)
    }

    fn decode(v: &JsonValue, path: &String) -> (r: Result<Project, ValidationError>) {
        let ms = match v {
            JsonValue::Object(ms) => ms,
            _ => {
                return Err(mismatch(v, path.clone(), "an object"));
            },
        };
        let name = match decode_text(ms, "name", path) {
            Ok(x) => x,
            Err(e) => {
                return Err(e);
            },
        };
        let description = match decode_opt_text(ms, "description", path) {
            Ok(x) => x,
            Err(e) => {
                return Err(e);
            },
        };
        let url = match decode_opt_text(ms, "url", path) {
            Ok(x) => x,
            Err(e) => {
                return Err(e);
            },
        };
        let start_date = match decode_opt_text(ms, "startDate", path) {
            Ok(x) => x,
            Err(e) => {
                return Err(e);
            },
        };
        let end_date = match decode_opt_text(ms, "endDate", path) {
            Ok(x) => x,
            Err(e) => {
                return Err(e);
            },
        };
        let keywords = match decode_text_list(ms, "keywords", path) {
            Ok(x) => x,
            Err(e) => {
                return Err(e);
            },
        };
        let highlights = match decode_text_list(ms, "highlights", path) {
            Ok(x) => x,
            Err(e) => {
                return Err(e);
            },
        };
        Ok(Project { name, description, url, start_date, end_date, keywords, highlights })
    }
}

impl Decode for Certification {
    open spec fn error_of(v: JsonValue, path: Seq<char>) -> Option<ErrView> {
        match v {
            JsonValue::Object(_) => {
                let ms = fields(v);
                or_else(
                    text_error(ms, "name"@, path),
                    or_else(
                    opt_text_error(ms, "issuer"@, path),
                    or_else(
                    opt_text_error(ms, "date"@, path),
                    opt_text_error(ms, "url"@, path),
                ),
                ),
                )
            },
            _ => Some(type_error(v, path, "an object"@)),
        }
    }

    open spec fn decodes_to(v: JsonValue, r: Certification) -> bool {
        let ms = fields(v);
        &&& r.name@ == text_value(ms, "name"@)
        &&& opt_string_view(r.issuer) == opt_text_value(ms, "issuer"@)
        &&& opt_string_view(r.date) == opt_text_value(ms, "date"@)
        &&& opt_string_view(r.url) == opt_text_value(ms, "url"@)
    }

    fn decode(v: &JsonValue, path: &String) -> (r: Result<Certification, ValidationError>) {
        let ms = match v {
            JsonValue::Object(ms) => ms,
            _ => {
                return Err(mismatch(v, path.clone(), "an object"));
            },
        };
        let name = match decode_text(ms, "name", path) {
            Ok(x) => x,
            Err(e) => {
                return Err(e);
            },
        };
        let issuer = match decode_opt_text(ms, "issuer", path) {
            Ok(x) => x,
            Err(e) => {
                return Err(e);
            },
        };
        let date = match decode_opt_text(ms, "date", path) {
            Ok(x) => x,
            Err(e) => {
                return Err(e);
            },
        };
        let url = match decode_opt_text(ms, "url", path) {
            Ok(x) => x,
            Err(e) => {
                return Err(e);
            },
        };
        Ok(Certification { name, issuer, date, url })
    }
}

impl Decode for Award {
    open spec fn error_of(v: JsonValue, path: Seq<char>) -> Option<ErrView> {
        match v {
            JsonValue::Object(_) => {
                let ms = fields(v);
                or_else(
                    text_error(ms, "title"@, path),
                    or_else(
                    opt_text_error(ms, "awarder"@, path),
                    or_else(
                    opt_text_error(ms, "date"@, path),
                    opt_text_error(ms, "summary"@, path),
                ),
                ),
                )
            },
            _ => Some(type_error(v, path, "an object"@)),
        }
    }

    open spec fn decodes_to(v: JsonValue, r: Award) -> bool {
        let ms = fields(v);
        &&& r.title@ == text_value(ms, "title"@)
        &&& opt_string_view(r.awarder) == opt_text_value(ms, "awarder"@)
        &&& opt_string_view(r.date) == opt_text_value(ms, "date"@)
        &&& opt_string_view(r.summary) == opt_text_value(ms, "summary"@)
    }

    fn decode(v: &JsonValue, path: &String) -> (r: Result<Award, ValidationError>) {
        let ms = match v {
            JsonValue::Object(ms) => ms,
            _ => {
                return Err(mismatch(v, path.clone(), "an object"));
            },
        };
        let title = match decode_text(ms, "title", path) {
            Ok(x) => x,
            Err(e) => {
                return Err(e);
            },
        };
        let awarder = match decode_opt_text(ms, "awarder", path) {
            Ok(x) => x,
            Err(e) => {
                return Err(e);
            },
        };
        let date = match decode_opt_text(ms, "date", path) {
            Ok(x) => x,
            Err(e) => {
                return Err(e);
            },
        };
        let summary = match decode_opt_text(ms, "summary", path) {
            Ok(x) => x,
            Err(e) => {
                return Err(e);
            },
        };
        Ok(Award { title, awarder, date, summary })
    }
}

impl Decode for Language {
    open spec fn error_of(v: JsonValue, path: Seq<char>) -> Option<ErrView> {
        match v {
            JsonValue::Object(_) => {
                let ms = fields(v);
                or_else(
                    text_error(ms, "language"@, path),
                    opt_text_error(ms, "fluency"@, path),
                )
            },
            _ => Some(type_error(v, path, "an object"@)),
        }
    }

    open spec fn decodes_to(v: JsonValue, r: Language) -> bool {
        let ms = fields(v);
        &&& r.language@ == text_value(ms, "language"@)
        &&& opt_string_view(r.fluency) == opt_text_value(ms, "fluency"@)
    }

    fn decode(v: &JsonValue, path: &String) -> (r: Result<Language, ValidationError>) {
        let ms = match v {
            JsonValue::Object(ms) => ms,
            _ => {
                return Err(mismatch(v, path.clone(), "an object"));
            },
        };
        let language = match decode_text(ms, "language", path) {
            Ok(x) => x,
            Err(e) => {
                return Err(e);
            },
        };
        let fluency = match decode_opt_text(ms, "fluency", path) {
            Ok(x) => x,
            Err(e) => {
                return Err(e);
            },
        };
        Ok(Language { language, fluency })
    }
}

impl Decode for Basics {
    open spec fn error_of(v: JsonValue, path: Seq<char>) -> Option<ErrView> {
        match v {
            JsonValue::Object(_) => {
                let ms = fields(v);
                or_else(
                    text_error(ms, "name"@, path),
                    or_else(
                    text_error(ms, "email"@, path),
                    or_else(
                    opt_text_error(ms, "phone"@, path),
                    or_else(
                    opt_text_error(ms, "location"@, path),
                    or_else(
                    opt_text_error(ms, "summary"@, path),
                    record_list_error::<Profile>(ms, "profiles"@, path),
                ),
                ),
                ),
                ),
                )
            },
            _ => Some(type_error(v, path, "an object"@)),
        }
    }

    open spec fn decodes_to(v: JsonValue, r: Basics) -> bool {
        let ms = fields(v);
        &&& r.name@ == text_value(ms, "name"@)
        &&& r.email@ == text_value(ms, "email"@)
        &&& opt_string_view(r.phone) == opt_text_value(ms, "phone"@)
        &&& opt_string_view(r.location) == opt_text_value(ms, "location"@)
        &&& opt_string_view(r.summary) == opt_text_value(ms, "summary"@)
        &&& record_list_match::<Profile>(ms, "profiles"@, r.profiles@)
    }

    fn decode(v: &JsonValue, path: &String) -> (r: Result<Basics, ValidationError>) {
        let ms = match v {
            JsonValue::Object(ms) => ms,
            _ => {
                return Err(mismatch(v, path.clone(), "an object"));
            },
        };
        let name = match decode_text(ms, "name", path) {
            Ok(x) => x,
            Err(e) => {
                return Err(e);
            },
        };
        let email = match decode_text(ms, "email", path) {
            Ok(x) => x,
            Err(e) => {
                return Err(e);
            },
        };
        let phone = match decode_opt_text(ms, "phone", path) {
            Ok(x) => x,
            Err(e) => {
                return Err(e);
            },
        };
        let location = match decode_opt_text(ms, "location", path) {
            Ok(x) => x,
            Err(e) => {
                return Err(e);
            },
        };
        let summary = match decode_opt_text(ms, "summary", path) {
            Ok(x) => x,
            Err(e) => {
                return Err(e);
            },
        };
        let profiles = match decode_record_list::<Profile>(ms, "profiles", path) {
            Ok(x) => x,
            Err(e) => {
                return Err(e);
            },
        };
        Ok(Basics { name, email, phone, location, summary, profiles })
    }
}

impl Decode for Resume {
    open spec fn error_of(v: JsonValue, path: Seq<char>) -> Option<ErrView> {
        match v {
            JsonValue::Object(_) => {
                let ms = fields(v);
                or_else(
                    record_error::<Basics>(ms, "basics"@, path),
                    or_else(
                    record_list_error::<WorkExperience>(ms, "work"@, path),
                    or_else(
                    record_list_error::<Education>(ms, "education"@, path),
                    or_else(
                    record_list_error::<Skill>(ms, "skills"@, path),
                    or_else(
                    record_list_error::<Project>(ms, "projects"@, path),
                    or_else(
                    record_list_error::<Certification>(ms, "certifications"@, path),
                    or_else(
                    record_list_error::<Award>(ms, "awards"@, path),
                    or_else(
                    record_list_error::<Language>(ms, "languages"@, path),
                    or_else(
                    opt_text_error(ms, "publications"@, path),
                    opt_text_list_error(ms, "sectionOrder"@, path),
                ),
                ),
                ),
                ),
                ),
                ),
                ),
                ),
                )
            },
            _ => Some(type_error(v, path, "an object"@)),
        }
    }

    open spec fn decodes_to(v: JsonValue, r: Resume) -> bool {
        let ms = fields(v);
        &&& record_match::<Basics>(ms, "basics"@, r.basics)
        &&& record_list_match::<WorkExperience>(ms, "work"@, r.work@)
        &&& record_list_match::<Education>(ms, "education"@, r.education@)
        &&& record_list_match::<Skill>(ms, "skills"@, r.skills@)
        &&& record_list_match::<Project>(ms, "projects"@, r.projects@)
        &&& record_list_match::<Certification>(ms, "certifications"@, r.certifications@)
        &&& record_list_match::<Award>(ms, "awards"@, r.awards@)
        &&& record_list_match::<Language>(ms, "languages"@, r.languages@)
        &&& opt_string_view(r.publications) == opt_text_value(ms, "publications"@)
        &&& opt_strings_view(r.section_order) == opt_text_list_value(ms, "sectionOrder"@)
    }

    fn decode(v: &JsonValue, path: &String) -> (r: Result<Resume, ValidationError>) {
        let ms = match v {
            JsonValue::Object(ms) => ms,
            _ => {
                return Err(mismatch(v, path.clone(), "an object"));
            },
        };
        let basics = match decode_record::<Basics>(ms, "basics", path) {
            Ok(x) => x,
            Err(e) => {
                return Err(e);
            },
        };
        let work = match decode_record_list::<WorkExperience>(ms, "work", path) {
            Ok(x) => x,
            Err(e) => {
                return Err(e);
            },
        };
        let education = match decode_record_list::<Education>(ms, "education", path) {
            Ok(x) => x,
            Err(e) => {
                return Err(e);
            },
        };
        let skills = match decode_record_list::<Skill>(ms, "skills", path) {
            Ok(x) => x,
            Err(e) => {
                return Err(e);
            },
        };
        let projects = match decode_record_list::<Project>(ms, "projects", path) {
            Ok(x) => x,
            Err(e) => {
                return Err(e);
            },
        };
        let certifications = match decode_record_list::<Certification>(ms, "certifications", path) {
            Ok(x) => x,
            Err(e) => {
                return Err(e);
            },
        };
        let awards = match decode_record_list::<Award>(ms, "awards", path) {
            Ok(x) => x,
            Err(e) => {
                return Err(e);
            },
        };
        let languages = match decode_record_list::<Language>(ms, "languages", path) {
            Ok(x) => x,
            Err(e) => {
                return Err(e);
            },
        };
        let publications = match decode_opt_text(ms, "publications", path) {
            Ok(x) => x,
            Err(e) => {
                return Err(e);
            },
        };
        let section_order = match decode_opt_text_list(ms, "sectionOrder", path) {
            Ok(x) => x,
            Err(e) => {
                return Err(e);
            },
        };
        Ok(Resume { basics, work, education, skills, projects, certifications, awards, languages, publications, section_order })
    }
}

} // verus!
