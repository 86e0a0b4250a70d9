//! What kind of file a document is, judged by its extension.

use vstd::prelude::*;
use vstd::string::*;

verus! {

/// The kinds of files the editor tells apart.
#[derive(Debug, Clone, Copy, PartialEq, Eq, Structural)]
pub enum FileKind {
    /// `.pdf`
    Pdf,
    /// `.doc` and `.docx`, converted to PDF before they are shown.
    Document,
    /// `.jpg`, `.jpeg`, `.png` and `.webp`: shown, redacted and exported as images.
    Image,
    /// `.gif`: shown, redacted and exported like the other images.
    Gif,
    /// Anything else, and files without an extension.
    Other,
}

/// A file the editor works on: an identity (equal for equal paths) and its kind.
#[derive(Debug, Clone, Copy, PartialEq, Eq, Structural)]
pub struct FileEntry {
    pub id: u64,
    pub kind: FileKind,
}

/// The code of `c` after ASCII lower-casing: `A`..`Z` become `a`..`z`.
pub open spec fn lower_code(c: char) -> u32 {
    if 'A' <= c && c <= 'Z' {
        (c as u32 + 32) as u32
    } else {
        c as u32
    }
}

/// `s` lower-cased is `t`.
pub open spec fn lower_eq(s: Seq<char>, t: Seq<char>) -> bool {
    &&& s.len() == t.len()
    &&& forall|i: int| 0 <= i < s.len() ==> lower_code(#[trigger] s[i]) == t[i] as u32
}

/// The kind that an extension (without its dot) names, ignoring ASCII case.
pub open spec fn kind_of(ext: Option<Seq<char>>) -> FileKind {
    match ext {
        None => FileKind::Other,
        Some(e) => if lower_eq(e, seq!['p', 'd', 'f']) {
            FileKind::Pdf
        } else if lower_eq(e, seq!['d', 'o', 'c']) || lower_eq(e, seq!['d', 'o', 'c', 'x']) {
            FileKind::Document
        } else if lower_eq(e, seq!['j', 'p', 'g']) || lower_eq(e, seq!['j', 'p', 'e', 'g'])
            || lower_eq(e, seq!['p', 'n', 'g']) || lower_eq(e, seq!['w', 'e', 'b', 'p']) {
            FileKind::Image
        } else if lower_eq(e, seq!['g', 'i', 'f']) {
            FileKind::Gif
        } else {
            FileKind::Other
        },
    }
}

/// `s` with `A`..`Z` lower-cased.
pub open spec fn ascii_lowercase(s: Seq<char>) -> Seq<char> {
    s.map_values(|c: char| if 'A' <= c && c <= 'Z' {
        (c as u32 + 32) as char
    } else {
        c
    })
}

/// The kind of a file does not depend on the case of its extension: an upper-case
/// `.PDF` is a PDF as `.pdf` is.
pub proof fn lemma_kind_ignores_case(e: Seq<char>)
    ensures
        kind_of(Some(e)) == kind_of(Some(ascii_lowercase(e))),
{
    let l = ascii_lowercase(e);
    assert forall|i: int| 0 <= i < e.len() implies lower_code(#[trigger] l[i]) == lower_code(e[i]) by {
        let c = e[i];
        if 'A' <= c && c <= 'Z' {
            assert((c as u32 + 32) as char as u32 == c as u32 + 32);
        }
    }
    assert forall|t: Seq<char>| lower_eq(e, t) == lower_eq(l, t) by {
        if e.len() == t.len() {
            assert forall|i: int| 0 <= i < e.len() implies (lower_code(#[trigger] e[i]) == t[i] as u32)
                == (lower_code(l[i]) == t[i] as u32) by {
                assert(lower_code(l[i]) == lower_code(e[i]));
            }
        }
    }
}

fn lower_matches(s: &str, t: &[char]) -> (r: bool)
    ensures
        r == lower_eq(s@, t@),
{
    let n = s.unicode_len();
    if n != t.len() {
        return false;
    }
    let mut i: usize = 0;
    while i < n
        invariant
            n == s@.len(),
            n == t@.len(),
            i <= n,
            forall|j: int| 0 <= j < i ==> lower_code(#[trigger] s@[j]) == t@[j] as u32,
        decreases n - i,
    {
        let c = s.get_char(i);
        let code: u32 = if 'A' <= c && c <= 'Z' {
            c as u32 + 32
        } else {
            c as u32
        };
        if code != t[i] as u32 {
            return false;
        }
        i = i + 1;
    }
    true
}

impl FileKind {
    /// Classifies an extension as `Path::extension` gives it (without the dot).
    pub fn from_extension(ext: Option<&str>) -> (kind: FileKind)
        ensures
            kind == kind_of(
                match ext {
                    Some(e) => Some(e@),
                    None => None,
                },
            ),
    {
        match ext {
            None => FileKind::Other,
            Some(e) => {
                let pdf = ['p', 'd', 'f'];
                let doc = ['d', 'o', 'c'];
                let docx = ['d', 'o', 'c', 'x'];
                let jpg = ['j', 'p', 'g'];
                let jpeg = ['j', 'p', 'e', 'g'];
                let png = ['p', 'n', 'g'];
                let webp = ['w', 'e', 'b', 'p'];
                let gif = ['g', 'i', 'f'];
                assert(pdf@ =~= seq!['p', 'd', 'f']);
                assert(doc@ =~= seq!['d', 'o', 'c']);
                assert(docx@ =~= seq!['d', 'o', 'c', 'x']);
                assert(jpg@ =~= seq!['j', 'p', 'g']);
                assert(jpeg@ =~= seq!['j', 'p', 'e', 'g']);
                assert(png@ =~= seq!['p', 'n', 'g']);
                assert(webp@ =~= seq!['w', 'e', 'b', 'p']);
                assert(gif@ =~= seq!['g', 'i', 'f']);
                if lower_matches(e, &pdf) {
                    FileKind::Pdf
                } else if lower_matches(e, &doc) || lower_matches(e, &docx) {
                    FileKind::Document
                } else if lower_matches(e, &jpg) || lower_matches(e, &jpeg) || lower_matches(
                    e,
                    &png,
                ) || lower_matches(e, &webp) {
                    FileKind::Image
                } else if lower_matches(e, &gif) {
                    FileKind::Gif
                } else {
                    FileKind::Other
                }
            },
        }
    }

    /// PDF files (opened directly by the PDF viewer).
    pub fn is_pdf(self) -> (r: bool)
        ensures
            r == (self == FileKind::Pdf),
    {
        match self {
            FileKind::Pdf => true,
            _ => false,
        }
    }

    /// Word documents, which go through a conversion to PDF and are then paged like
    /// PDFs.
    pub fn is_document(self) -> (r: bool)
        ensures
            r == (self == FileKind::Document),
    {
        match self {
            FileKind::Document => true,
            _ => false,
        }
    }
}

} // verus!
