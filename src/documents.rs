//! The document shapes: a resume and a cover letter.
//!
//! Required fields are plain values; optional free text is an `Option`; list
//! sections are never absent, only empty.
use vstd::prelude::*;

verus! {

/// A complete resume document.
pub struct Resume {
    pub basics: Basics,
    pub work: Vec<WorkExperience>,
    pub education: Vec<Education>,
    pub skills: Vec<Skill>,
    pub projects: Vec<Project>,
    pub certifications: Vec<Certification>,
    pub awards: Vec<Award>,
    pub languages: Vec<Language>,
    /// Free-form text on publications.
    pub publications: Option<String>,
    /// Names of the sections to show, in order.
    pub section_order: Option<Vec<String>>,
}

/// A project entry.
pub struct Project {
    pub name: String,
    pub description: Option<String>,
    pub url: Option<String>,
    pub start_date: Option<String>,
    pub end_date: Option<String>,
    pub keywords: Vec<String>,
    pub highlights: Vec<String>,
}

/// Basic personal and contact information.
pub struct Basics {
    pub name: String,
    pub email: String,
    pub phone: Option<String>,
    pub location: Option<String>,
    pub summary: Option<String>,
    pub profiles: Vec<Profile>,
}

/// An online profile or link.
pub struct Profile {
    pub network: String,
    pub url: String,
}

/// A work experience entry.
pub struct WorkExperience {
    pub company: String,
    pub position: String,
    pub location: Option<String>,
    pub start_date: Option<String>,
    pub end_date: Option<String>,
    pub highlights: Vec<String>,
}

/// An education entry.
pub struct Education {
    pub institution: String,
    pub degree: Option<String>,
    pub field_of_study: Option<String>,
    pub location: Option<String>,
    pub start_date: Option<String>,
    pub end_date: Option<String>,
    pub gpa: Option<String>,
    pub highlights: Vec<String>,
}

/// A skill category with related keywords.
pub struct Skill {
    pub name: String,
    pub keywords: Vec<String>,
}

/// A professional certification or license.
pub struct Certification {
    pub name: String,
    pub issuer: Option<String>,
    pub date: Option<String>,
    pub url: Option<String>,
}

/// An award, honor or recognition.
pub struct Award {
    pub title: String,
    pub awarder: Option<String>,
    pub date: Option<String>,
    pub summary: Option<String>,
}

/// A language and proficiency level.
pub struct Language {
    pub language: String,
    pub fluency: Option<String>,
}

/// A professional cover letter.
pub struct CoverLetter {
    pub sender: ContactInfo,
    pub recipient: Recipient,
    pub date: Option<String>,
    pub opening: String,
    pub body: Vec<String>,
    pub closing: String,
    pub signature: Option<String>,
}

/// The sender's contact information.
pub struct ContactInfo {
    pub name: String,
    pub email: String,
    pub phone: Option<String>,
    pub address: Option<String>,
    pub linkedin: Option<String>,
}

/// The recipient of a cover letter.
pub struct Recipient {
    pub name: Option<String>,
    pub title: Option<String>,
    pub company: String,
    pub address: Option<String>,
}

} // verus!
