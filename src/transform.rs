//! Turning a `Resume` into Typst source.
//!
//! The resume is written as compact JSON (fields in declaration order, absent
//! optional fields and empty optional lists left out) and embedded verbatim
//! after the template, inside a raw block whose backtick fence is longer than
//! any run of backticks in the JSON. The compiled markup decodes it again and
//! calls the template's `resume` function on it.
use crate::documents::{
    Award, Basics, Certification, Education, Language, Profile, Project, Resume, Skill,
    WorkExperience,
};
use crate::text::{chars_of, hex_digit, join_into, joined, push_char};
use crate::validation::strings_view;
use vstd::prelude::*;

verus! {

/// How serde_json writes one character inside a string literal: a quote and
/// a backslash get a backslash, five control characters their short escape,
/// the other characters below U+0020 a `\u00XX` escape, and the rest stand
/// as they are.
pub open spec fn json_char(c: char) -> Seq<char> {
    if c == '"' {
        seq!['\\', '"']
    } else if c == '\\' {
        seq!['\\', '\\']
    } else if c == '\u{8}' {
        seq!['\\', 'b']
    } else if c == '\t' {
        seq!['\\', 't']
    } else if c == '\n' {
        seq!['\\', 'n']
    } else if c == '\u{c}' {
        seq!['\\', 'f']
    } else if c == '\r' {
        seq!['\\', 'r']
    } else if (c as u32) < 32 {
        seq!['\\', 'u', '0', '0', hex_digit(((c as u32) / 16) as u128), hex_digit(((c as u32) % 16) as u128)]
    } else {
        seq![c]
    }
}

/// The characters of `s`, each written as `json_char` writes it.
pub open spec fn json_escaped(s: Seq<char>) -> Seq<char>
    decreases s.len(),
{
    if s.len() == 0 {
        Seq::empty()
    } else {
        json_escaped(s.drop_last()) + json_char(s.last())
    }
}

/// The JSON string literal for a text, quoted and escaped.
pub open spec fn json_quoted(s: Seq<char>) -> Seq<char> {
    seq!['"'] + json_escaped(s) + seq!['"']
}

/// Relies on serde_json's `to_string` on a string slice: the text in quotes,
/// each character escaped by serde_json's table (`format_escaped_str`).
/// Serializing a `str` does not fail.
#[verifier::external_body]
fn quote(s: &str) -> (r: String)
    ensures
        r@ == json_quoted(s@),
{
    match serde_json::to_string(s) {
        Ok(t) => t,
        Err(_) => String::new(),
    }
}

/// A JSON object with the given members.
pub open spec fn object_text(members: Seq<Seq<char>>) -> Seq<char> {
    "{"@ + joined(members, ","@) + "}"@
}

/// A JSON array with the given elements.
pub open spec fn array_text(elements: Seq<Seq<char>>) -> Seq<char> {
    "["@ + joined(elements, ","@) + "]"@
}

/// A member's key and colon.
pub open spec fn key_text(k: Seq<char>) -> Seq<char> {
    "\""@ + k + "\":"@
}

/// A member holding a text.
pub open spec fn text_member(k: Seq<char>, v: Seq<char>) -> Seq<char> {
    key_text(k) + json_quoted(v)
}

/// A member holding an optional text; left out when absent.
pub open spec fn opt_text_member(k: Seq<char>, o: Option<String>) -> Seq<Seq<char>> {
    match o {
        Some(s) => seq![text_member(k, s@)],
        None => seq![],
    }
}

/// Each text as a JSON string literal.
pub open spec fn quoted_all(v: Seq<String>) -> Seq<Seq<char>> {
    v.map_values(|s: String| json_quoted(s@))
}

/// A list of texts; left out when empty if `skip_empty`.
pub open spec fn text_list_member(k: Seq<char>, v: Seq<String>, skip_empty: bool) -> Seq<Seq<char>> {
    if skip_empty && v.len() == 0 {
        seq![]
    } else {
        seq![key_text(k) + array_text(quoted_all(v))]
    }
}

/// A member holding an optional list of texts; left out when absent.
pub open spec fn opt_text_list_member(k: Seq<char>, o: Option<Vec<String>>) -> Seq<Seq<char>> {
    match o {
        Some(v) => text_list_member(k, v@, false),
        None => seq![],
    }
}

/// A record type written as a JSON object.
pub trait ToJson: Sized {
    /// The JSON text of the record.
    spec fn json_text(&self) -> Seq<char>;

    /// Writes the record as JSON.
    fn to_json(&self) -> (r: String)
        ensures
            r@ == self.json_text(),
    ;
}

/// Each record's JSON text.
pub open spec fn texts_of<T: ToJson>(v: Seq<T>) -> Seq<Seq<char>> {
    v.map_values(|x: T| x.json_text())
}

/// A list of records; left out when empty if `skip_empty`.
pub open spec fn record_list_member<T: ToJson>(k: Seq<char>, v: Seq<T>, skip_empty: bool) -> Seq<
    Seq<char>,
> {
    if skip_empty && v.len() == 0 {
        seq![]
    } else {
        seq![key_text(k) + array_text(texts_of(v))]
    }
}

fn object_string(parts: &Vec<String>) -> (r: String)
    ensures
        r@ == object_text(strings_view(parts@)),
{
    let mut r = String::from_str("{");
    join_into(&mut r, parts, ",");
    r.append("}");
    r
}

fn array_string(parts: &Vec<String>) -> (r: String)
    ensures
        r@ == array_text(strings_view(parts@)),
{
    let mut r = String::from_str("[");
    join_into(&mut r, parts, ",");
    r.append("]");
    r
}

fn key_string(key: &str) -> (r: String)
    ensures
        r@ == key_text(key@),
{
    let mut r = String::from_str("\"");
    r.append(key);
    r.append("\":");
    r
}

fn quoted_array(v: &Vec<String>) -> (r: String)
    ensures
        r@ == array_text(quoted_all(v@)),
{
    let mut parts: Vec<String> = Vec::new();
    let mut i: usize = 0;
    while i < v.len()
        invariant
            0 <= i <= v.len(),
            strings_view(parts@) =~= quoted_all(v@.subrange(0, i as int)),
        decreases v.len() - i,
    {
        let ghost prev = strings_view(parts@);
        let q = quote(v[i].as_str());
        parts.push(q);
        proof {
            assert(strings_view(parts@) =~= prev.push(q@));
            assert(v@.subrange(0, i + 1) =~= v@.subrange(0, i as int).push(v@[i as int]));
            assert(quoted_all(v@.subrange(0, i + 1)) =~= quoted_all(v@.subrange(0, i as int)).push(
                q@,
            ));
        }
        i = i + 1;
    }
    assert(v@.subrange(0, v.len() as int) =~= v@);
    array_string(&parts)
}

fn records_array<T: ToJson>(v: &Vec<T>) -> (r: String)
    ensures
        r@ == array_text(texts_of(v@)),
{
    let mut parts: Vec<String> = Vec::new();
    let mut i: usize = 0;
    while i < v.len()
        invariant
            0 <= i <= v.len(),
            strings_view(parts@) =~= texts_of(v@.subrange(0, i as int)),
        decreases v.len() - i,
    {
        let ghost prev = strings_view(parts@);
        let t = v[i].to_json();
        parts.push(t);
        proof {
            assert(strings_view(parts@) =~= prev.push(t@));
            assert(v@.subrange(0, i + 1) =~= v@.subrange(0, i as int).push(v@[i as int]));
            assert(texts_of(v@.subrange(0, i + 1)) =~= texts_of(v@.subrange(0, i as int)).push(t@));
        }
        i = i + 1;
    }
    assert(v@.subrange(0, v.len() as int) =~= v@);
    array_string(&parts)
}

fn push_part(parts: &mut Vec<String>, key: &str, value: String)
    ensures
        strings_view(final(parts)@) == strings_view(old(parts)@) + seq![key_text(key@) + value@],
{
    let mut m = key_string(key);
    m.append(value.as_str());
    parts.push(m);
    assert(strings_view(parts@) =~= strings_view(old(parts)@) + seq![key_text(key@) + value@]);
}

fn push_text_member(parts: &mut Vec<String>, key: &str, v: &String)
    ensures
        strings_view(final(parts)@) == strings_view(old(parts)@) + seq![text_member(key@, v@)],
{
    let q = quote(v.as_str());
    push_part(parts, key, q);
    assert(key_text(key@) + json_quoted(v@) == text_member(key@, v@));
}

fn push_opt_text_member(parts: &mut Vec<String>, key: &str, v: &Option<String>)
    ensures
        strings_view(final(parts)@) == strings_view(old(parts)@) + opt_text_member(key@, *v),
{
    match v {
        Some(s) => push_text_member(parts, key, s),
        None => {
            assert(strings_view(parts@) =~= strings_view(old(parts)@) + opt_text_member(key@, *v));
        },
    }
}

fn push_text_list_member(parts: &mut Vec<String>, key: &str, v: &Vec<String>, skip_empty: bool)
    ensures
        strings_view(final(parts)@) == strings_view(old(parts)@) + text_list_member(
            key@,
            v@,
            skip_empty,
        ),
{
    if skip_empty && v.len() == 0 {
        assert(strings_view(parts@) =~= strings_view(old(parts)@) + text_list_member(
            key@,
            v@,
            skip_empty,
        ));
    } else {
        push_part(parts, key, quoted_array(v));
    }
}

fn push_opt_text_list_member(parts: &mut Vec<String>, key: &str, v: &Option<Vec<String>>)
    ensures
        strings_view(final(parts)@) == strings_view(old(parts)@) + opt_text_list_member(key@, *v),
{
    match v {
        Some(items) => push_text_list_member(parts, key, items, false),
        None => {
            assert(strings_view(parts@) =~= strings_view(old(parts)@) + opt_text_list_member(
                key@,
                *v,
            ));
        },
    }
}

fn push_record_member<T: ToJson>(parts: &mut Vec<String>, key: &str, r: &T)
    ensures
        strings_view(final(parts)@) == strings_view(old(parts)@) + seq![key_text(key@) + r.json_text()],
{
    push_part(parts, key, r.to_json());
}

fn push_record_list_member<T: ToJson>(parts: &mut Vec<String>, key: &str, v: &Vec<T>, skip_empty: bool)
    ensures
        strings_view(final(parts)@) == strings_view(old(parts)@) + record_list_member(
            key@,
            v@,
            skip_empty,
        ),
{
    if skip_empty && v.len() == 0 {
        assert(strings_view(parts@) =~= strings_view(old(parts)@) + record_list_member(
            key@,
            v@,
            skip_empty,
        ));
    } else {
        push_part(parts, key, records_array(v));
    }
}

impl ToJson for Profile {
    open spec fn json_text(&self) -> Seq<char> {
        object_text(
            seq![text_member("network"@, self.network@)]
            + seq![text_member("url"@, self.url@)],
        )
    }

    fn to_json(&self) -> (r: String) {
        let mut parts: Vec<String> = Vec::new();
        push_text_member(&mut parts, "network", &self.network);
        push_text_member(&mut parts, "url", &self.url);
        assert(strings_view(parts@) =~= seq![text_member("network"@, self.network@)] + seq![text_member("url"@, self.url@)]);
        object_string(&parts)
    }
}

impl ToJson for WorkExperience {
    open spec fn json_text(&self) -> Seq<char> {
        object_text(
            seq![text_member("company"@, self.company@)]
            + seq![text_member("position"@, self.position@)]
            + opt_text_member("location"@, self.location)
            + opt_text_member("startDate"@, self.start_date)
            + opt_text_member("endDate"@, self.end_date)
            + text_list_member("highlights"@, self.highlights@, true),
        )
    }

    fn to_json(&self) -> (r: String) {
        let mut parts: Vec<String> = Vec::new();
        push_text_member(&mut parts, "company", &self.company);
        push_text_member(&mut parts, "position", &self.position);
        push_opt_text_member(&mut parts, "location", &self.location);
        push_opt_text_member(&mut parts, "startDate", &self.start_date);
        push_opt_text_member(&mut parts, "endDate", &self.end_date);
        push_text_list_member(&mut parts, "highlights", &self.highlights, true);
        assert(strings_view(parts@) =~= seq![text_member("company"@, self.company@)] + seq![text_member("position"@, self.position@)] + opt_text_member("location"@, self.location) + opt_text_member("startDate"@, self.start_date) + opt_text_member("endDate"@, self.end_date) + text_list_member("highlights"@, self.highlights@, true));
        object_string(&parts)
    }
}

impl ToJson for Education {
    open spec fn json_text(&self) -> Seq<char> {
        object_text(
            seq![text_member("institution"@, self.institution@)]
            + opt_text_member("degree"@, self.degree)
            + opt_text_member("fieldOfStudy"@, self.field_of_study)
            + opt_text_member("location"@, self.location)
            + opt_text_member("startDate"@, self.start_date)
            + opt_text_member("endDate"@, self.end_date)
            + opt_text_member("gpa"@, self.gpa)
            + text_list_member("highlights"@, self.highlights@, true),
        )
    }

    fn to_json(&self) -> (r: String) {
        let mut parts: Vec<String> = Vec::new();
        push_text_member(&mut parts, "institution", &self.institution);
        push_opt_text_member(&mut parts, "degree", &self.degree);
        push_opt_text_member(&mut parts, "fieldOfStudy", &self.field_of_study);
        push_opt_text_member(&mut parts, "location", &self.location);
        push_opt_text_member(&mut parts, "startDate", &self.start_date);
        push_opt_text_member(&mut parts, "endDate", &self.end_date);
        push_opt_text_member(&mut parts, "gpa", &self.gpa);
        push_text_list_member(&mut parts, "highlights", &self.highlights, true);
        assert(strings_view(parts@) =~= seq![text_member("institution"@, self.institution@)] + opt_text_member("degree"@, self.degree) + opt_text_member("fieldOfStudy"@, self.field_of_study) + opt_text_member("location"@, self.location) + opt_text_member("startDate"@, self.start_date) + opt_text_member("endDate"@, self.end_date) + opt_text_member("gpa"@, self.gpa) + text_list_member("highlights"@, self.highlights@, true));
        object_string(&parts)
    }
}

impl ToJson for Skill {
    open spec fn json_text(&self) -> Seq<char> {
        object_text(
            seq![text_member("name"@, self.name@)]
            + text_list_member("keywords"@, self.keywords@, true),
        )
    }

    fn to_json(&self) -> (r: String) {
        let mut parts: Vec<String> = Vec::new();
        push_text_member(&mut parts, "name", &self.name);
        push_text_list_member(&mut parts, "keywords", &self.keywords, true);
        assert(strings_view(parts@) =~= seq![text_member("name"@, self.name@)] + text_list_member("keywords"@, self.keywords@, true));
        object_string(&parts)
    }
}

impl ToJson for Project {
    open spec fn json_text(&self) -> Seq<char> {
        object_text(
            seq![text_member("name"@, self.name@)]
            + opt_text_member("description"@, self.description)
            + opt_text_member("url"@, self.url)
            + opt_text_member("startDate"@, self.start_date)
            + opt_text_member("endDate"@, self.end_date)
            + text_list_member("keywords"@, self.keywords@, true)
            + text_list_member("highlights"@, self.highlights@, true),
        )
    }

    fn to_json(&self) -> (r: String) {
        let mut parts: Vec<String> = Vec::new();
        push_text_member(&mut parts, "name", &self.name);
        push_opt_text_member(&mut parts, "description", &self.description);
        push_opt_text_member(&mut parts, "url", &self.url);
        push_opt_text_member(&mut parts, "startDate", &self.start_date);
        push_opt_text_member(&mut parts, "endDate", &self.end_date);
        push_text_list_member(&mut parts, "keywords", &self.keywords, true);
        push_text_list_member(&mut parts, "highlights", &self.highlights, true);
        assert(strings_view(parts@) =~= seq![text_member("name"@, self.name@)] + opt_text_member("description"@, self.description) + opt_text_member("url"@, self.url) + opt_text_member("startDate"@, self.start_date) + opt_text_member("endDate"@, self.end_date) + text_list_member("keywords"@, self.keywords@, true) + text_list_member("highlights"@, self.highlights@, true));
        object_string(&parts)
    }
}

impl ToJson for Certification {
    open spec fn json_text(&self) -> Seq<char> {
        object_text(
            seq![text_member("name"@, self.name@)]
            + opt_text_member("issuer"@, self.issuer)
            + opt_text_member("date"@, self.date)
            + opt_text_member("url"@, self.url),
        )
    }

    fn to_json(&self) -> (r: String) {
        let mut parts: Vec<String> = Vec::new();
        push_text_member(&mut parts, "name", &self.name);
        push_opt_text_member(&mut parts, "issuer", &self.issuer);
        push_opt_text_member(&mut parts, "date", &self.date);
        push_opt_text_member(&mut parts, "url", &self.url);
        assert(strings_view(parts@) =~= seq![text_member("name"@, self.name@)] + opt_text_member("issuer"@, self.issuer) + opt_text_member("date"@, self.date) + opt_text_member("url"@, self.url));
        object_string(&parts)
    }
}

impl ToJson for Award {
    open spec fn json_text(&self) -> Seq<char> {
        object_text(
            seq![text_member("title"@, self.title@)]
            + opt_text_member("awarder"@, self.awarder)
            + opt_text_member("date"@, self.date)
            + opt_text_member("summary"@, self.summary),
        )
    }

    fn to_json(&self) -> (r: String) {
        let mut parts: Vec<String> = Vec::new();
        push_text_member(&mut parts, "title", &self.title);
        push_opt_text_member(&mut parts, "awarder", &self.awarder);
        push_opt_text_member(&mut parts, "date", &self.date);
        push_opt_text_member(&mut parts, "summary", &self.summary);
        assert(strings_view(parts@) =~= seq![text_member("title"@, self.title@)] + opt_text_member("awarder"@, self.awarder) + opt_text_member("date"@, self.date) + opt_text_member("summary"@, self.summary));
        object_string(&parts)
    }
}

impl ToJson for Language {
    open spec fn json_text(&self) -> Seq<char> {
        object_text(
            seq![text_member("language"@, self.language@)]
            + opt_text_member("fluency"@, self.fluency),
        )
    }

    fn to_json(&self) -> (r: String) {
        let mut parts: Vec<String> = Vec::new();
        push_text_member(&mut parts, "language", &self.language);
        push_opt_text_member(&mut parts, "fluency", &self.fluency);
        assert(strings_view(parts@) =~= seq![text_member("language"@, self.language@)] + opt_text_member("fluency"@, self.fluency));
        object_string(&parts)
    }
}

impl ToJson for Basics {
    open spec fn json_text(&self) -> Seq<char> {
        object_text(
            seq![text_member("name"@, self.name@)]
            + seq![text_member("email"@, self.email@)]
            + opt_text_member("phone"@, self.phone)
            + opt_text_member("location"@, self.location)
            + opt_text_member("summary"@, self.summary)
            + record_list_member("profiles"@, self.profiles@, true),
        )
    }

    fn to_json(&self) -> (r: String) {
        let mut parts: Vec<String> = Vec::new();
        push_text_member(&mut parts, "name", &self.name);
        push_text_member(&mut parts, "email", &self.email);
        push_opt_text_member(&mut parts, "phone", &self.phone);
        push_opt_text_member(&mut parts, "location", &self.location);
        push_opt_text_member(&mut parts, "summary", &self.summary);
        push_record_list_member(&mut parts, "profiles", &self.profiles, true);
        assert(strings_view(parts@) =~= seq![text_member("name"@, self.name@)] + seq![text_member("email"@, self.email@)] + opt_text_member("phone"@, self.phone) + opt_text_member("location"@, self.location) + opt_text_member("summary"@, self.summary) + record_list_member("profiles"@, self.profiles@, true));
        object_string(&parts)
    }
}

impl ToJson for Resume {
    open spec fn json_text(&self) -> Seq<char> {
        object_text(
            seq![key_text("basics"@) + self.basics.json_text()]
            + record_list_member("work"@, self.work@, false)
            + record_list_member("education"@, self.education@, true)
            + record_list_member("skills"@, self.skills@, true)
            + record_list_member("projects"@, self.projects@, true)
            + record_list_member("certifications"@, self.certifications@, true)
            + record_list_member("awards"@, self.awards@, true)
            + record_list_member("languages"@, self.languages@, true)
            + opt_text_member("publications"@, self.publications)
            + opt_text_list_member("sectionOrder"@, self.section_order),
        )
    }

    fn to_json(&self) -> (r: String) {
        let mut parts: Vec<String> = Vec::new();
        push_record_member(&mut parts, "basics", &self.basics);
        push_record_list_member(&mut parts, "work", &self.work, false);
        push_record_list_member(&mut parts, "education", &self.education, true);
        push_record_list_member(&mut parts, "skills", &self.skills, true);
        push_record_list_member(&mut parts, "projects", &self.projects, true);
        push_record_list_member(&mut parts, "certifications", &self.certifications, true);
        push_record_list_member(&mut parts, "awards", &self.awards, true);
        push_record_list_member(&mut parts, "languages", &self.languages, true);
        push_opt_text_member(&mut parts, "publications", &self.publications);
        push_opt_text_list_member(&mut parts, "sectionOrder", &self.section_order);
        assert(strings_view(parts@) =~= seq![key_text("basics"@) + self.basics.json_text()] + record_list_member("work"@, self.work@, false) + record_list_member("education"@, self.education@, true) + record_list_member("skills"@, self.skills@, true) + record_list_member("projects"@, self.projects@, true) + record_list_member("certifications"@, self.certifications@, true) + record_list_member("awards"@, self.awards@, true) + record_list_member("languages"@, self.languages@, true) + opt_text_member("publications"@, self.publications) + opt_text_list_member("sectionOrder"@, self.section_order));
        object_string(&parts)
    }
}

/// The Typst template; its `resume` function lays out a decoded resume.
pub const RESUME_TEMPLATE: &'static str = r##"// Resume template: `resume(data)` lays out a decoded resume.

#let entry-dates(entry) = {
  let start = entry.at("startDate", default: none)
  let end = entry.at("endDate", default: none)
  if start != none and end != none { start + " – " + end }
  else if start != none { start }
  else if end != none { end }
  else { "" }
}

#let heading-line(title) = {
  v(8pt)
  text(size: 11pt, weight: "bold", upper(title))
  v(-6pt)
  line(length: 100%, stroke: 0.5pt)
}

#let entry-head(left, right) = {
  grid(columns: (1fr, auto), text(weight: "bold", left), text(style: "italic", right))
}

#let bullet-list(entry, key) = {
  let items = entry.at(key, default: ())
  if items.len() > 0 {
    list(..items.map(item => [#item]))
  }
}

#let experience-section(data) = {
  let work = data.at("work", default: ())
  if work.len() > 0 {
    heading-line("Experience")
    for job in work {
      entry-head(job.position + ", " + job.company, entry-dates(job))
      if job.at("location", default: none) != none { text(size: 9pt, job.location) }
      bullet-list(job, "highlights")
    }
  }
}

#let education-section(data) = {
  let education = data.at("education", default: ())
  if education.len() > 0 {
    heading-line("Education")
    for school in education {
      let degree = (school.at("degree", default: none), school.at("fieldOfStudy", default: none)).filter(x => x != none).join(", ")
      entry-head(school.institution, entry-dates(school))
      if degree != none { [#degree] }
      if school.at("gpa", default: none) != none { [ (GPA #school.gpa)] }
      bullet-list(school, "highlights")
    }
  }
}

#let projects-section(data) = {
  let projects = data.at("projects", default: ())
  if projects.len() > 0 {
    heading-line("Projects")
    for project in projects {
      entry-head(project.name, entry-dates(project))
      if project.at("description", default: none) != none { [#project.description] }
      bullet-list(project, "highlights")
      let keywords = project.at("keywords", default: ())
      if keywords.len() > 0 { text(size: 9pt, keywords.join(", ")) }
    }
  }
}

#let skills-section(data) = {
  let skills = data.at("skills", default: ())
  if skills.len() > 0 {
    heading-line("Skills")
    for skill in skills {
      [*#skill.name*: #skill.at("keywords", default: ()).join(", ") \ ]
    }
  }
}

#let certifications-section(data) = {
  let certifications = data.at("certifications", default: ())
  if certifications.len() > 0 {
    heading-line("Certifications")
    for cert in certifications {
      let issuer = cert.at("issuer", default: none)
      entry-head(if issuer != none { cert.name + ", " + issuer } else { cert.name }, cert.at("date", default: ""))
    }
  }
}

#let awards-section(data) = {
  let awards = data.at("awards", default: ())
  if awards.len() > 0 {
    heading-line("Awards")
    for award in awards {
      let awarder = award.at("awarder", default: none)
      entry-head(if awarder != none { award.title + ", " + awarder } else { award.title }, award.at("date", default: ""))
      if award.at("summary", default: none) != none { [#award.summary] }
    }
  }
}

#let publications-section(data) = {
  let publications = data.at("publications", default: none)
  if publications != none {
    heading-line("Publications")
    [#publications]
  }
}

#let languages-section(data) = {
  let languages = data.at("languages", default: ())
  if languages.len() > 0 {
    heading-line("Languages")
    languages.map(l => {
      let fluency = l.at("fluency", default: none)
      if fluency != none { l.language + " (" + fluency + ")" } else { l.language }
    }).join(", ")
  }
}

#let resume(data) = {
  let basics = data.basics
  set document(title: basics.name)
  set page(margin: (x: 1.6cm, y: 1.4cm))
  set text(size: 10pt)

  align(center)[
    #text(size: 20pt, weight: "bold")[#basics.name] \
    #let contact = (basics.email, basics.at("phone", default: none), basics.at("location", default: none)).filter(x => x != none)
    #contact.join(" | ")
    #let profiles = basics.at("profiles", default: ())
    #if profiles.len() > 0 [ \ #profiles.map(p => p.network + ": " + p.url).join(" | ")]
  ]

  if basics.at("summary", default: none) != none {
    heading-line("Summary")
    [#basics.summary]
  }

  let sections = (
    experience: experience-section,
    education: education-section,
    projects: projects-section,
    skills: skills-section,
    certifications: certifications-section,
    awards: awards-section,
    publications: publications-section,
    languages: languages-section,
  )
  let order = data.at("sectionOrder", default: ("experience", "education", "projects", "skills", "certifications", "awards", "publications", "languages"))
  for name in order {
    let section = sections.at(name, default: none)
    if section != none { section(data) }
  }
}
"##;

/// `n` backticks.
pub open spec fn ticks(n: nat) -> Seq<char> {
    Seq::new(n, |i: int| '`')
}

/// The length of the run of backticks at the end of `s`.
pub open spec fn trailing_ticks(s: Seq<char>) -> nat
    decreases s.len(),
{
    if s.len() > 0 && s.last() == '`' {
        trailing_ticks(s.drop_last()) + 1
    } else {
        0
    }
}

/// The length of the longest run of backticks in `s`.
pub open spec fn longest_run(s: Seq<char>) -> nat
    decreases s.len(),
{
    if s.len() == 0 {
        0
    } else if trailing_ticks(s) > longest_run(s.drop_last()) {
        trailing_ticks(s)
    } else {
        longest_run(s.drop_last())
    }
}

/// The fence for embedding `j`: at least five backticks, and more than any
/// run inside `j`.
pub open spec fn fence_width(j: Seq<char>) -> nat {
    if longest_run(j) + 1 > 5 {
        longest_run(j) + 1
    } else {
        5
    }
}

/// The Typst source that renders the JSON text `j` with the template.
pub open spec fn typst_source(j: Seq<char>) -> Seq<char> {
    RESUME_TEMPLATE@ + "\n\n#let json-string = "@ + ticks(fence_width(j)) + "\n"@ + j + "\n"@
        + ticks(fence_width(j)) + ".text\n\n#let json-data = json(bytes(json-string))\n\n#resume(json-data)\n"@
}

fn longest_tick_run(cs: &Vec<char>) -> (r: u128)
    ensures
        r == longest_run(cs@),
        r <= cs@.len(),
{
    let mut cur: u128 = 0;
    let mut best: u128 = 0;
    let mut i: usize = 0;
    assert(cs@.subrange(0, 0) =~= Seq::<char>::empty());
    while i < cs.len()
        invariant
            0 <= i <= cs.len(),
            cur == trailing_ticks(cs@.subrange(0, i as int)),
            best == longest_run(cs@.subrange(0, i as int)),
            cur <= i,
            best <= i,
        decreases cs.len() - i,
    {
        assert(cs@.subrange(0, i + 1).drop_last() =~= cs@.subrange(0, i as int));
        if cs[i] == '`' {
            cur = cur + 1;
        } else {
            cur = 0;
        }
        if cur > best {
            best = cur;
        }
        i = i + 1;
    }
    assert(cs@.subrange(0, cs.len() as int) =~= cs@);
    best
}

fn push_ticks(s: &mut String, n: u128)
    ensures
        final(s)@ == old(s)@ + ticks(n as nat),
{
    let mut i: u128 = 0;
    while i < n
        invariant
            0 <= i <= n,
            s@ =~= old(s)@ + ticks(i as nat),
        decreases n - i,
    {
        push_char(s, '`');
        i = i + 1;
        assert(s@ =~= old(s)@ + ticks(i as nat));
    }
}

/// The Typst source for `resume`: the template, then the resume's JSON text in
/// a raw block that nothing inside it can close early, then the call that
/// renders it.
pub fn transform_resume(resume: &Resume) -> (r: String)
    ensures
        r@ == typst_source(resume.json_text()),
{
    let json = resume.to_json();
    let run: u128 = longest_tick_run(&chars_of(json.as_str()));
    let width: u128 = if run + 1 > 5 {
        run + 1
    } else {
        5
    };
    let mut source = String::from_str(RESUME_TEMPLATE);
    source.append("\n\n#let json-string = ");
    push_ticks(&mut source, width);
    source.append("\n");
    source.append(json.as_str());
    source.append("\n");
    push_ticks(&mut source, width);
    source.append(".text\n\n#let json-data = json(bytes(json-string))\n\n#resume(json-data)\n");
    source
}

/// The embedded JSON cannot close its raw block: the fence is at least five
/// backticks long and longer than every run of backticks inside the JSON.
pub proof fn lemma_fence_not_broken(j: Seq<char>)
    ensures
        fence_width(j) >= 5,
        forall|k: int| 0 <= k <= j.len() ==> trailing_ticks(#[trigger] j.subrange(0, k)) < fence_width(j),
{
    assert forall|k: int| 0 <= k <= j.len() implies trailing_ticks(#[trigger] j.subrange(0, k)) <= longest_run(j) by {
        lemma_prefix_run(j, k);
    }
}

proof fn lemma_prefix_run(j: Seq<char>, k: int)
    requires
        0 <= k <= j.len(),
    ensures
        trailing_ticks(j.subrange(0, k)) <= longest_run(j),
    decreases j.len(),
{
    if k == j.len() {
        assert(j.subrange(0, k) =~= j);
    } else {
        assert(j.drop_last().subrange(0, k) =~= j.subrange(0, k));
        lemma_prefix_run(j.drop_last(), k);
    }
}

/// The joined text begins with the first piece.
proof fn lemma_joined_starts_with_first(ps: Seq<Seq<char>>, sep: Seq<char>)
    requires
        ps.len() >= 1,
    ensures
        joined(ps, sep).len() >= ps[0].len(),
        joined(ps, sep).subrange(0, ps[0].len() as int) == ps[0],
    decreases ps.len(),
{
    if ps.len() == 1 {
        assert(joined(ps, sep).subrange(0, ps[0].len() as int) =~= ps[0]);
    } else {
        let init = ps.drop_last();
        lemma_joined_starts_with_first(init, sep);
        assert(init[0] == ps[0]);
        let whole = joined(init, sep) + sep + ps.last();
        assert(whole.subrange(0, ps[0].len() as int) =~= joined(init, sep).subrange(
            0,
            ps[0].len() as int,
        ));
    }
}

/// An object's text holds its first member right after the opening brace.
proof fn lemma_object_first_member(members: Seq<Seq<char>>)
    requires
        members.len() >= 1,
    ensures
        object_text(members).len() >= 1 + members[0].len(),
        object_text(members).subrange(1, 1 + members[0].len() as int) == members[0],
{
    reveal_strlit("{");
    lemma_joined_starts_with_first(members, ","@);
    let j = joined(members, ","@);
    assert(object_text(members).subrange(1, 1 + members[0].len() as int) =~= j.subrange(
        0,
        members[0].len() as int,
    ));
}

/// A text that no character of which needs escaping is quoted as it stands.
pub proof fn lemma_plain_text_quoted(s: Seq<char>)
    requires
        forall|i: int|
            0 <= i < s.len() ==> #[trigger] s[i] != '"' && s[i] != '\\' && (s[i] as u32) >= 32,
    ensures
        json_escaped(s) == s,
    decreases s.len(),
{
    if s.len() > 0 {
        let init = s.drop_last();
        assert forall|i: int| 0 <= i < init.len() implies #[trigger] init[i] != '"' && init[i]
            != '\\' && (init[i] as u32) >= 32 by {
            assert(init[i] == s[i]);
        }
        lemma_plain_text_quoted(init);
        assert(json_char(s.last()) == seq![s.last()]);
        assert(init.push(s.last()) =~= s);
        assert(json_escaped(s) =~= s);
    }
}

/// The Typst source of a resume carries the contact's name as a JSON string
/// literal, inside the embedded JSON text, at a fixed offset from its start.
pub proof fn lemma_source_holds_name(r: Resume)
    ensures
        ({
            let src = typst_source(r.json_text());
            let q = json_quoted(r.basics.name@);
            exists|k: int| 0 <= k && k + q.len() <= src.len() && #[trigger] src.subrange(k, k + q.len()) == q
        }),
{
    let q = json_quoted(r.basics.name@);
    let ql: int = q.len() as int;
    let name_member = key_text("name"@) + q;
    let bms = seq![text_member("name"@, r.basics.name@)]
        + seq![text_member("email"@, r.basics.email@)]
        + opt_text_member("phone"@, r.basics.phone)
        + opt_text_member("location"@, r.basics.location)
        + opt_text_member("summary"@, r.basics.summary)
        + record_list_member("profiles"@, r.basics.profiles@, true);
    assert(bms[0] == name_member);
    lemma_object_first_member(bms);
    let a = r.basics.json_text();
    assert(a == object_text(bms));
    let kn: int = key_text("name"@).len() as int;
    assert(a.subrange(1 + kn, 1 + kn + ql) =~= name_member.subrange(kn, kn + ql));
    assert(name_member.subrange(kn, kn + ql) =~= q);
    let basics_member = key_text("basics"@) + a;
    let rms = seq![basics_member]
        + record_list_member("work"@, r.work@, false)
        + record_list_member("education"@, r.education@, true)
        + record_list_member("skills"@, r.skills@, true)
        + record_list_member("projects"@, r.projects@, true)
        + record_list_member("certifications"@, r.certifications@, true)
        + record_list_member("awards"@, r.awards@, true)
        + record_list_member("languages"@, r.languages@, true)
        + opt_text_member("publications"@, r.publications)
        + opt_text_list_member("sectionOrder"@, r.section_order);
    assert(rms[0] == basics_member);
    lemma_object_first_member(rms);
    let j = r.json_text();
    assert(j == object_text(rms));
    let kb: int = key_text("basics"@).len() as int;
    let off = 1 + kb + 1 + kn;
    assert(j.subrange(off, off + ql) =~= basics_member.subrange(kb + 1 + kn, kb + 1 + kn + ql));
    assert(basics_member.subrange(kb + 1 + kn, kb + 1 + kn + ql) =~= a.subrange(
        1 + kn,
        1 + kn + ql,
    ));
    let w = fence_width(j);
    let pre = RESUME_TEMPLATE@ + "\n\n#let json-string = "@ + ticks(w) + "\n"@;
    let src = typst_source(j);
    assert(src == pre + j + ("\n"@ + ticks(w)
        + ".text\n\n#let json-data = json(bytes(json-string))\n\n#resume(json-data)\n"@));
    let k: int = pre.len() + off;
    assert(src.subrange(k, k + ql) =~= j.subrange(off, off + ql));
}

} // verus!
