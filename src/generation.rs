//! The generation pipeline: validate, transform, compile, name and deliver.
//!
//! Compilation and writing files happen outside the library; the steps here
//! decide what is handed to them and what the caller is told about the
//! outcome. Each step is a hard gate: the first failure becomes the result.
use crate::json::JsonValue;
use crate::storage::{after_retrieve, retrieved, stored_view, FileStorage, StoredFile};
use crate::text::{chars_of, hex_digit, join_into, joined, push_char};
use crate::transform::{transform_resume, typst_source, ToJson};
use crate::validation::{
    resume_value, strings_view, validate_resume, validation_error, Decode, ValidationError,
    ValidationResult,
};
use crate::documents::Resume;
use vstd::prelude::*;

verus! {

/// The severity of a compiler diagnostic.
pub enum Severity {
    Error,
    Warning,
}

/// A message from the compiler.
pub struct Diagnostic {
    pub severity: Severity,
    pub message: String,
}

/// What a generation request tells its caller.
pub enum GenerationResult {
    /// Where the document can be found: a local path or a download reference.
    Success { location: String, message: String },
    /// Why no document was produced.
    Error { message: String, validation_errors: Option<Vec<ValidationError>> },
}

/// What to do after the first two steps.
pub enum GenerationStep {
    /// Compile `source`; the document is to be named `filename`.
    Compile { source: String, filename: String },
    /// Stop with this result.
    Done { result: GenerationResult },
}

/// The suffix of a filename derived from a contact name.
pub const FILENAME_SUFFIX: &'static str = "-resume.pdf";

/// How one character of a contact name shows in a filename: ASCII letters in
/// lower case, digits and hyphens as they are, a space as a hyphen; anything
/// else is dropped.
pub open spec fn name_char(c: char) -> Option<char> {
    if 'A' <= c && c <= 'Z' {
        Some(((c as u8) + 32) as char)
    } else if ('a' <= c && c <= 'z') || ('0' <= c && c <= '9') || c == '-' {
        Some(c)
    } else if c == ' ' {
        Some('-')
    } else {
        None
    }
}

/// A contact name made fit for a filename, character by character.
pub open spec fn sanitized(s: Seq<char>) -> Seq<char>
    decreases s.len(),
{
    if s.len() == 0 {
        Seq::empty()
    } else {
        match name_char(s.last()) {
            Some(c) => sanitized(s.drop_last()).push(c),
            None => sanitized(s.drop_last()),
        }
    }
}

/// The filename for a document: the caller's, verbatim, or one derived from
/// the contact name.
pub open spec fn output_filename(explicit: Option<String>, name: Seq<char>) -> Seq<char> {
    match explicit {
        Some(f) => f@,
        None => sanitized(name) + FILENAME_SUFFIX@,
    }
}

fn filename_char(c: char) -> (r: Option<char>)
    ensures
        r == name_char(c),
{
    if 'A' <= c && c <= 'Z' {
        Some(((c as u8) + 32) as char)
    } else if ('a' <= c && c <= 'z') || ('0' <= c && c <= '9') || c == '-' {
        Some(c)
    } else if c == ' ' {
        Some('-')
    } else {
        None
    }
}

/// The contact name made fit for a filename.
pub fn sanitize_name(name: &str) -> (r: String)
    ensures
        r@ == sanitized(name@),
{
    let cs = chars_of(name);
    let mut r = String::new();
    let mut i: usize = 0;
    assert(cs@.subrange(0, 0) =~= Seq::<char>::empty());
    while i < cs.len()
        invariant
            0 <= i <= cs.len(),
            r@ == sanitized(cs@.subrange(0, i as int)),
        decreases cs.len() - i,
    {
        assert(cs@.subrange(0, i + 1).drop_last() =~= cs@.subrange(0, i as int));
        match filename_char(cs[i]) {
            Some(c) => push_char(&mut r, c),
            None => {},
        }
        i = i + 1;
    }
    assert(cs@.subrange(0, cs.len() as int) =~= cs@);
    r
}

/// The caller's filename if given, else the sanitized contact name with the
/// fixed suffix.
pub fn derive_filename(explicit: Option<String>, name: &str) -> (r: String)
    ensures
        r@ == output_filename(explicit, name@),
{
    match explicit {
        Some(f) => f,
        None => {
            let mut r = sanitize_name(name);
            r.append(FILENAME_SUFFIX);
            r
        },
    }
}

/// Validates the call input and, if it holds a resume, produces the Typst
/// source to compile and the filename to deliver under.
pub fn prepare_generation(input: JsonValue, filename: Option<String>) -> (r: GenerationStep)
    ensures
        match r {
            GenerationStep::Compile { source, filename: f } => validation_error(input) is None
                && exists|res: Resume|
                #![trigger res.json_text()]
                Resume::decodes_to(resume_value(input), res) && source@ == typst_source(
                    res.json_text(),
                ) && f@ == output_filename(filename, res.basics.name@),
            GenerationStep::Done { result } => validation_error(input) is Some && match result {
                GenerationResult::Error { message, validation_errors } => message@
                    == "Validation failed"@ && validation_errors is Some
                    && validation_errors.unwrap()@.len() == 1
                    && validation_errors.unwrap()@[0].view_pair() == validation_error(input).unwrap(),
                _ => false,
            },
        },
{
    match validate_resume(input) {
        ValidationResult::Invalid { errors } => GenerationStep::Done {
            result: GenerationResult::Error {
                message: String::from_str("Validation failed"),
                validation_errors: Some(errors),
            },
        },
        ValidationResult::Valid { resume } => {
            let source = transform_resume(&resume);
            let name = derive_filename(filename, resume.basics.name.as_str());
            GenerationStep::Compile { source, filename: name }
        },
    }
}

/// How a severity is named in messages.
pub open spec fn severity_text(s: Severity) -> Seq<char> {
    match s {
        Severity::Error => "Error"@,
        Severity::Warning => "Warning"@,
    }
}

/// One diagnostic as a line of text.
pub open spec fn diagnostic_line(d: Diagnostic) -> Seq<char> {
    severity_text(d.severity) + ": "@ + d.message@
}

/// The message for a failed compilation: every diagnostic on a line of its own.
pub open spec fn compile_failure_text(ds: Seq<Diagnostic>) -> Seq<char> {
    "Typst compilation failed:\n"@ + joined(ds.map_values(|d: Diagnostic| diagnostic_line(d)), "\n"@)
}

/// Some diagnostic has error severity.
pub open spec fn has_error(ds: Seq<Diagnostic>) -> bool {
    exists|i: int| 0 <= i < ds.len() && ds[i].severity is Error
}

fn diagnostic_string(d: &Diagnostic) -> (r: String)
    ensures
        r@ == diagnostic_line(*d),
{
    let mut r = match d.severity {
        Severity::Error => String::from_str("Error"),
        Severity::Warning => String::from_str("Warning"),
    };
    r.append(": ");
    r.append(d.message.as_str());
    r
}

/// The message for a failed compilation.
pub fn compile_failure_message(diagnostics: &Vec<Diagnostic>) -> (r: String)
    ensures
        r@ == compile_failure_text(diagnostics@),
{
    let mut lines: Vec<String> = Vec::new();
    let mut i: usize = 0;
    while i < diagnostics.len()
        invariant
            0 <= i <= diagnostics.len(),
            strings_view(lines@) =~= diagnostics@.subrange(0, i as int).map_values(
                |d: Diagnostic| diagnostic_line(d),
            ),
        decreases diagnostics.len() - i,
    {
        let ghost prev = strings_view(lines@);
        let line = diagnostic_string(&diagnostics[i]);
        lines.push(line);
        proof {
            assert(strings_view(lines@) =~= prev.push(line@));
            assert(diagnostics@.subrange(0, i + 1) =~= diagnostics@.subrange(0, i as int).push(
                diagnostics@[i as int],
            ));
        }
        i = i + 1;
    }
    assert(diagnostics@.subrange(0, diagnostics.len() as int) =~= diagnostics@);
    let mut r = String::from_str("Typst compilation failed:\n");
    join_into(&mut r, &lines, "\n");
    r
}

fn any_error(diagnostics: &Vec<Diagnostic>) -> (r: bool)
    ensures
        r == has_error(diagnostics@),
{
    let mut i: usize = 0;
    while i < diagnostics.len()
        invariant
            0 <= i <= diagnostics.len(),
            forall|j: int| 0 <= j < i ==> !(#[trigger] diagnostics@[j].severity is Error),
        decreases diagnostics.len() - i,
    {
        match diagnostics[i].severity {
            Severity::Error => {
                return true;
            },
            Severity::Warning => {},
        }
        i = i + 1;
    }
    false
}

/// Judges a compilation: it failed when no document came out or some
/// diagnostic is an error; warnings alone do not fail it.
pub fn compile_outcome(output: Option<Vec<u8>>, diagnostics: &Vec<Diagnostic>) -> (r: Result<
    Vec<u8>,
    GenerationResult,
>)
    ensures
        match r {
            Ok(pdf) => output is Some && pdf@ == output.unwrap()@ && !has_error(diagnostics@),
            Err(g) => (output is None || has_error(diagnostics@)) && match g {
                GenerationResult::Error { message, validation_errors } => message@
                    == compile_failure_text(diagnostics@) && validation_errors is None,
                _ => false,
            },
        },
{
    let failed = any_error(diagnostics);
    match output {
        Some(pdf) => {
            if !failed {
                return Ok(pdf);
            }
        },
        None => {},
    }
    Err(GenerationResult::Error { message: compile_failure_message(diagnostics), validation_errors: None })
}

/// The `k`-th of the 32 hexadecimal digits of `id`, most significant first.
pub open spec fn nibble(id: u128, k: int) -> u128 {
    (id >> ((124 - 4 * k) as u128)) & 15
}

/// Which hexadecimal digit stands at position `i` of the hyphenated form.
pub open spec fn digit_index(i: int) -> int {
    if i < 8 {
        i
    } else if i < 13 {
        i - 1
    } else if i < 18 {
        i - 2
    } else if i < 23 {
        i - 3
    } else {
        i - 4
    }
}

/// The hyphenated text form of an identifier: its 32 hexadecimal digits,
/// big-endian and in lower case, with hyphens at positions 8, 13, 18 and 23.
pub open spec fn uuid_text(id: u128) -> Seq<char> {
    Seq::new(
        36,
        |i: int|
            if i == 8 || i == 13 || i == 18 || i == 23 {
                '-'
            } else {
                hex_digit(nibble(id, digit_index(i)))
            },
    )
}

/// The identifier that a text names, if it names one.
pub uninterp spec fn uuid_parsed(s: Seq<char>) -> Option<u128>;

/// Relies on uuid's `Display` for `Uuid::from_u128`: the big-endian bytes of
/// the identifier, written as lower-case hexadecimal with hyphens.
#[verifier::external_body]
fn uuid_string(id: u128) -> (r: String)
    ensures
        r@ == uuid_text(id),
{
    uuid::Uuid::from_u128(id).to_string()
}

/// Relies on uuid's `Uuid::parse_str`: the identifier that `s` names, or
/// nothing when `s` is not an identifier. The hyphenated form is accepted, so
/// the text of an identifier parses back to it.
#[verifier::external_body]
fn parse_uuid(s: &str) -> (r: Option<u128>)
    ensures
        r == uuid_parsed(s@),
        forall|id: u128| #[trigger] uuid_text(id) == s@ ==> r == Some(id),
{
    match uuid::Uuid::parse_str(s) {
        Ok(u) => Some(u.as_u128()),
        Err(_) => None,
    }
}

/// Where a stored artifact can be downloaded.
pub open spec fn download_text(id: u128) -> Seq<char> {
    "/files/"@ + uuid_text(id)
}

/// The download reference for an artifact.
pub fn download_path(id: u128) -> (r: String)
    ensures
        r@ == download_text(id),
{
    let mut r = String::from_str("/files/");
    r.append(uuid_string(id).as_str());
    r
}

/// What the caller is told about a stored document.
pub open spec fn stored_message(location: Seq<char>) -> Seq<char> {
    "Resume generated; download it from "@ + location + " within one hour"@
}

/// Delivers a compiled document to the store, stamped `now` and filed under
/// an identifier derived from `seed`.
pub fn deliver_to_storage_at(
    storage: &mut FileStorage,
    pdf: Vec<u8>,
    filename: String,
    now: u64,
    seed: u128,
) -> (r: GenerationResult)
    requires
        old(storage).wf(),
    ensures
        final(storage).wf(),
        exists|id: u128|
            #![trigger download_text(id)]
            {
                &&& !old(storage)@.contains_key(id)
                &&& final(storage)@ == old(storage)@.insert(id, stored_view(pdf@, filename@, now))
                &&& match r {
                    GenerationResult::Success { location, message } => location@ == download_text(id)
                        && message@ == stored_message(location@),
                    _ => false,
                }
            },
{
    let id: u128 = storage.store_at(pdf, filename, now, seed);
    let location = download_path(id);
    let mut message = String::from_str("Resume generated; download it from ");
    message.append(location.as_str());
    message.append(" within one hour");
    GenerationResult::Success { location, message }
}

/// Delivers a compiled document to the store, by the clock and under a fresh
/// random identifier.
pub fn deliver_to_storage(storage: &mut FileStorage, pdf: Vec<u8>, filename: String) -> (r: GenerationResult)
    requires
        old(storage).wf(),
    ensures
        final(storage).wf(),
        exists|id: u128|
            #![trigger download_text(id)]
            {
                &&& !old(storage)@.contains_key(id)
                &&& final(storage)@ == old(storage)@.insert(
                    id,
                    stored_view(pdf@, filename@, final(storage)@[id].created_at),
                )
                &&& match r {
                    GenerationResult::Success { location, message } => location@ == download_text(id)
                        && message@ == stored_message(location@),
                    _ => false,
                }
            },
{
    let id: u128 = storage.store(pdf, filename);
    let location = download_path(id);
    let mut message = String::from_str("Resume generated; download it from ");
    message.append(location.as_str());
    message.append(" within one hour");
    GenerationResult::Success { location, message }
}

/// The result of writing a compiled document to the local path `filename`:
/// success names the path, a failed write reports its cause.
pub fn deliver_direct(filename: String, written: Result<(), String>) -> (r: GenerationResult)
    ensures
        match written {
            Ok(_) => r is Success && r->Success_location@ == filename@ && r->Success_message@
                == "Resume written to "@ + filename@,
            Err(cause) => r is Error && r->Error_validation_errors is None
                && r->Error_message@ == "Failed to write "@ + filename@ + ": "@ + cause@,
        },
{
    match written {
        Ok(()) => {
            let mut message = String::from_str("Resume written to ");
            message.append(filename.as_str());
            GenerationResult::Success { location: filename, message }
        },
        Err(cause) => {
            let mut message = String::from_str("Failed to write ");
            message.append(filename.as_str());
            message.append(": ");
            message.append(cause.as_str());
            GenerationResult::Error { message, validation_errors: None }
        },
    }
}

/// What a download request finds.
pub enum FileLookup {
    /// The text is not an identifier.
    Malformed,
    /// No live artifact has that identifier.
    NotFound,
    Found(StoredFile),
}

/// Looks up the artifact named by `id_text` at time `now`. A text that is no
/// identifier is told apart from an identifier with no live artifact; an
/// expired artifact and one that never existed look the same.
pub fn lookup_file_at(storage: &mut FileStorage, id_text: &str, now: u64) -> (r: FileLookup)
    requires
        old(storage).wf(),
    ensures
        final(storage).wf(),
        forall|id: u128| #[trigger] uuid_text(id) == id_text@ ==> uuid_parsed(id_text@) == Some(id),
        match uuid_parsed(id_text@) {
            None => r is Malformed && final(storage)@ == old(storage)@,
            Some(id) => final(storage)@ == after_retrieve(old(storage)@, id, now) && match r {
                FileLookup::Found(f) => retrieved(old(storage)@, id, now) == Some(f@),
                FileLookup::NotFound => retrieved(old(storage)@, id, now) is None,
                FileLookup::Malformed => false,
            },
        },
{
    match parse_uuid(id_text) {
        None => FileLookup::Malformed,
        Some(id) => match storage.retrieve_at(id, now) {
            Some(f) => FileLookup::Found(f),
            None => FileLookup::NotFound,
        },
    }
}

/// Looks up the artifact named by `id_text` by the clock.
pub fn lookup_file(storage: &mut FileStorage, id_text: &str) -> (r: FileLookup)
    requires
        old(storage).wf(),
    ensures
        final(storage).wf(),
        uuid_parsed(id_text@) is None ==> r is Malformed && final(storage)@ == old(storage)@,
        uuid_parsed(id_text@) is Some ==> !(r is Malformed),
        forall|id: u128| #[trigger] uuid_text(id) == id_text@ ==> uuid_parsed(id_text@) == Some(id),
        match r {
            FileLookup::Found(f) => exists|id: u128|
                #![trigger old(storage)@[id]]
                uuid_parsed(id_text@) == Some(id) && old(storage)@.contains_key(id) && f@ == old(
                    storage,
                )@[id] && final(storage)@ == old(storage)@,
            _ => true,
        },
{
    match parse_uuid(id_text) {
        None => FileLookup::Malformed,
        Some(id) => match storage.retrieve(id) {
            Some(f) => FileLookup::Found(f),
            None => FileLookup::NotFound,
        },
    }
}

} // verus!
