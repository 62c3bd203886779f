use docgen::documents::{Basics, Profile, Resume, Skill, WorkExperience};
use docgen::generation::{compile_outcome, Diagnostic, Severity};
use docgen::transform::transform_resume;
use typst::diag::{FileError, FileResult};
use typst::foundations::{Bytes, Datetime};
use typst::layout::PagedDocument;
use typst::syntax::{FileId, Source, VirtualPath};
use typst::text::{Font, FontBook};
use typst::utils::LazyHash;
use typst::{Library, LibraryExt, World};

struct TestWorld {
    library: LazyHash<Library>,
    book: LazyHash<FontBook>,
    fonts: Vec<Font>,
    main: Source,
}

impl TestWorld {
    fn new(source: String) -> Self {
        let fonts: Vec<Font> =
            typst_assets::fonts().flat_map(|bytes| Font::new(Bytes::new(bytes), 0)).collect();
        let book = FontBook::from_fonts(&fonts);
        let id = FileId::new(None, VirtualPath::new("main.typ"));
        TestWorld {
            library: LazyHash::new(Library::default()),
            book: LazyHash::new(book),
            fonts,
            main: Source::new(id, source),
        }
    }
}

impl World for TestWorld {
    fn library(&self) -> &LazyHash<Library> {
        &self.library
    }
    fn book(&self) -> &LazyHash<FontBook> {
        &self.book
    }
    fn main(&self) -> FileId {
        self.main.id()
    }
    fn source(&self, id: FileId) -> FileResult<Source> {
        if id == self.main.id() {
            Ok(self.main.clone())
        } else {
            Err(FileError::NotFound(id.vpath().as_rootless_path().into()))
        }
    }
    fn file(&self, id: FileId) -> FileResult<Bytes> {
        Err(FileError::NotFound(id.vpath().as_rootless_path().into()))
    }
    fn font(&self, index: usize) -> Option<Font> {
        self.fonts.get(index).cloned()
    }
    fn today(&self, _offset: Option<i64>) -> Option<Datetime> {
        Datetime::from_ymd(2024, 1, 15)
    }
}

fn compile(source: String) -> (Option<Vec<u8>>, Vec<Diagnostic>) {
    let world = TestWorld::new(source);
    let warned = typst::compile::<PagedDocument>(&world);
    let to_diag = |d: &typst::diag::SourceDiagnostic| Diagnostic {
        severity: match d.severity {
            typst::diag::Severity::Error => Severity::Error,
            typst::diag::Severity::Warning => Severity::Warning,
        },
        message: d.message.to_string(),
    };
    let mut diags: Vec<Diagnostic> = warned.warnings.iter().map(to_diag).collect();
    match warned.output {
        Ok(doc) => match typst_pdf::pdf(&doc, &typst_pdf::PdfOptions::default()) {
            Ok(bytes) => (Some(bytes), diags),
            Err(errors) => {
                diags.extend(errors.iter().map(to_diag));
                (None, diags)
            }
        },
        Err(errors) => {
            diags.extend(errors.iter().map(to_diag));
            (None, diags)
        }
    }
}

fn describe(diags: &[Diagnostic]) -> String {
    diags.iter().map(|d| d.message.clone()).collect::<Vec<_>>().join("; ")
}

fn test_user() -> Resume {
    Resume {
        basics: Basics {
            name: "Test User".to_string(),
            email: "test@example.com".to_string(),
            phone: None,
            location: None,
            summary: None,
            profiles: vec![],
        },
        work: vec![],
        education: vec![],
        skills: vec![],
        projects: vec![],
        certifications: vec![],
        awards: vec![],
        languages: vec![],
        publications: None,
        section_order: None,
    }
}

#[test]
fn test_transform_and_compile() {
    let source = transform_resume(&test_user());
    let (output, diags) = compile(source);
    assert!(output.is_some(), "Diag: {}", describe(&diags));
}

#[test]
fn compiled_resume_is_a_pdf() {
    let mut resume = test_user();
    resume.basics.phone = Some("+1-555-123-4567".to_string());
    resume.basics.summary = Some("Engineer with `backticks` and \"quotes\"".to_string());
    resume.basics.profiles =
        vec![Profile { network: "GitHub".to_string(), url: "https://github.com/x".to_string() }];
    resume.work = vec![WorkExperience {
        company: "Tech Corp".to_string(),
        position: "Engineer".to_string(),
        location: None,
        start_date: Some("2020-01".to_string()),
        end_date: None,
        highlights: vec!["Shipped ``````things".to_string()],
    }];
    resume.skills =
        vec![Skill { name: "Languages".to_string(), keywords: vec!["Rust".to_string()] }];
    resume.publications = Some("Two papers".to_string());
    resume.section_order = Some(vec!["skills".to_string(), "experience".to_string()]);
    let (output, diags) = compile(transform_resume(&resume));
    let pdf = match compile_outcome(output, &diags) {
        Ok(pdf) => pdf,
        Err(_) => panic!("compilation failed: {}", describe(&diags)),
    };
    assert!(pdf.starts_with(b"%PDF"));
}
