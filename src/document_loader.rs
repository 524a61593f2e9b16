use vstd::prelude::*;
use vstd::utf8::{decode_utf8, decode_utf8_encode_utf8, encode_utf8, valid_utf8};

use crate::text::{
    base_end, find_base_end, find_last, last_index_of, lemma_base_end_bounds,
    lemma_last_index_bounds, same_text,
};

verus! {

/// What `str::to_lowercase` makes of a sequence of characters.
pub uninterp spec fn lower_of(s: Seq<char>) -> Seq<char>;

/// What `encoding_rs::WINDOWS_1252.decode` makes of bytes, with its replacements.
pub uninterp spec fn windows_1252_of(b: Seq<u8>) -> Seq<char>;

/// What `pdf_extract::extract_text_from_mem` comes to on bytes: `None` where it panics
/// (on some malformed content streams and fonts), `Some(None)` where it reports an
/// error, and `Some(Some(text))` otherwise.
pub uninterp spec fn pdf_outcome(b: Seq<u8>) -> Option<Option<Seq<char>>>;

/// What `docx_rs::read_docx` comes to on bytes, the body carried over child by child:
/// `None` where it panics (on some malformed parts of a package it opened),
/// `Some(None)` where it reports an error, and `Some(Some(body))` otherwise.
pub uninterp spec fn docx_outcome(b: Seq<u8>) -> Option<Option<Seq<BodyItem>>>;

/// Whether PDF extraction returns on these bytes.
pub open spec fn pdf_returns(b: Seq<u8>) -> bool {
    pdf_outcome(b) is Some
}

/// The text extracted from a PDF, `None` where extraction reports an error.
pub open spec fn pdf_text_of(b: Seq<u8>) -> Option<Seq<char>> {
    pdf_outcome(b)->Some_0
}

/// Whether reading a DOCX package returns on these bytes.
pub open spec fn docx_returns(b: Seq<u8>) -> bool {
    docx_outcome(b) is Some
}

/// Whether the bytes open as a DOCX package.
pub open spec fn docx_readable(b: Seq<u8>) -> bool {
    docx_outcome(b)->Some_0 is Some
}

/// The body of a DOCX package.
pub open spec fn docx_body_of(b: Seq<u8>) -> Seq<BodyItem> {
    docx_outcome(b)->Some_0->Some_0
}

/// Whether extracting the file's text returns: the PDF and DOCX readers panic on
/// some malformed inputs.
pub open spec fn extraction_returns(content: Seq<u8>, name: Seq<char>) -> bool {
    &&& file_kind(name) == "pdf"@ ==> pdf_returns(content)
    &&& file_kind(name) == "docx"@ ==> docx_returns(content)
}

/// Whether `d` is what ASCII lowercasing makes of the ASCII character `c`.
pub open spec fn ascii_lowered(c: char, d: char) -> bool {
    &&& (c as u32) < 128
    &&& 65 <= (c as u32) <= 90 ==> (d as u32) == (c as u32) + 32
    &&& !(65 <= (c as u32) <= 90) ==> d == c
}

/// Whether every character is ASCII.
pub open spec fn all_ascii(s: Seq<char>) -> bool {
    forall|i: int| 0 <= i < s.len() ==> (#[trigger] s[i] as u32) < 128
}

/// Relies on `str::to_lowercase`: the result depends on the characters alone, an
/// empty string stays empty, and ASCII text is lowercased letter by letter.
#[verifier::external_body]
fn lowercase(s: &str) -> (r: String)
    ensures
        r@ == lower_of(s@),
        s@.len() == 0 ==> r@.len() == 0,
        all_ascii(s@) ==> r@.len() == s@.len() && forall|i: int|
            0 <= i < s@.len() ==> ascii_lowered(#[trigger] s@[i], r@[i]),
{
    s.to_lowercase()
}

/// Relies on `std::str::from_utf8`: it accepts exactly the valid UTF-8 byte strings
/// and decodes them.
#[verifier::external_body]
fn decode_utf8_text(b: &[u8]) -> (r: Option<String>)
    ensures
        r is Some <==> valid_utf8(b@),
        r is Some ==> r->Some_0@ == decode_utf8(b@),
{
    std::str::from_utf8(b).ok().map(|t| t.to_string())
}

/// Relies on `encoding_rs::Encoding::decode` with Windows-1252, which never fails.
#[verifier::external_body]
fn decode_windows_1252(b: &[u8]) -> (r: String)
    ensures
        r@ == windows_1252_of(b@),
{
    let (text, _, _) = encoding_rs::WINDOWS_1252.decode(b);
    text.into_owned()
}

/// Relies on `pdf_extract::extract_text_from_mem` for the text content of a PDF.
#[verifier::external_body]
fn extract_pdf_text(b: &[u8]) -> (r: Option<String>)
    requires
        pdf_outcome(b@) is Some,
    ensures
        r is None <==> pdf_outcome(b@) == Some(None::<Seq<char>>),
        r is Some ==> pdf_outcome(b@) == Some(Some(r->Some_0@)),
{
    pdf_extract::extract_text_from_mem(b).ok()
}

/// A child of a run: a text fragment, or anything else (an image, a break).
pub enum RunItem {
    Text(String),
    Other,
}

/// A child of a paragraph: a run, or anything else.
pub enum ParagraphItem {
    Run(Vec<RunItem>),
    Other,
}

/// A child of a document body: a paragraph, or anything else (a table, a bookmark).
pub enum BodyItem {
    Paragraph(Vec<ParagraphItem>),
    Other,
}

/// Relies on `docx_rs::read_docx` to open the package; the document body is then
/// carried over child by child.
#[verifier::external_body]
fn read_docx_body(b: &[u8]) -> (r: Option<Vec<BodyItem>>)
    requires
        docx_outcome(b@) is Some,
    ensures
        r is None <==> docx_outcome(b@) == Some(None::<Seq<BodyItem>>),
        r is Some ==> docx_outcome(b@) == Some(Some(r->Some_0@)),
{
    docx_rs::read_docx(b).ok().map(|d| d.document.children.into_iter().map(|c| match c {
        docx_rs::DocumentChild::Paragraph(p) => BodyItem::Paragraph(p.children.into_iter().map(|pc| match pc {
            docx_rs::ParagraphChild::Run(run) => ParagraphItem::Run(run.children.into_iter().map(|rc| match rc {
                docx_rs::RunChild::Text(t) => RunItem::Text(t.text),
                _ => RunItem::Other,
            }).collect()),
            _ => ParagraphItem::Other,
        }).collect()),
        _ => BodyItem::Other,
    }).collect())
}

/// The error of an extraction.
#[derive(Clone, Copy, Debug, PartialEq, Eq, Structural)]
pub enum LoadError {
    /// The file name's extension is not one of `pdf`, `docx`, `txt`.
    UnsupportedFormat,
    /// The bytes could not be decoded in the format that the extension names.
    ParseFailure,
}

impl LoadError {
    /// A human-readable description of the error.
    pub fn message(&self) -> (r: String)
        ensures
            r@ == match *self {
                LoadError::UnsupportedFormat => "Unsupported file type"@,
                LoadError::ParseFailure => "Failed to parse document"@,
            },
    {
        match self {
            LoadError::UnsupportedFormat => String::from_str("Unsupported file type"),
            LoadError::ParseFailure => String::from_str("Failed to parse document"),
        }
    }
}

/// The lowercased extension of a file name. Trailing separators and `.` components
/// are passed over; in the last component left, the extension is what follows its
/// last `.`, where that `.` is not the component's first character. It is empty
/// where there is none, and for a `..` component.
pub open spec fn file_kind(name: Seq<char>) -> Seq<char> {
    let end = base_end(name, name.len() as int);
    let seg = last_index_of(name, '/', end) + 1;
    let dot = last_index_of(name, '.', end);
    if dot > seg && dot + 1 < end {
        lower_of(name.subrange(dot + 1, end))
    } else {
        Seq::empty()
    }
}

/// The text of a plain-text file: UTF-8 where the bytes are valid UTF-8,
/// Windows-1252 otherwise.
pub open spec fn plain_text_of(b: Seq<u8>) -> Seq<char> {
    if valid_utf8(b) {
        decode_utf8(b)
    } else {
        windows_1252_of(b)
    }
}

/// Plain text that is valid UTF-8 decodes exactly: encoding the text gives back
/// the bytes.
pub proof fn lemma_utf8_text_exact(b: Seq<u8>)
    requires
        valid_utf8(b),
    ensures
        encode_utf8(plain_text_of(b)) == b,
{
    decode_utf8_encode_utf8(b);
}

/// The concatenated text fragments of a run.
pub open spec fn run_text(items: Seq<RunItem>) -> Seq<char>
    decreases items.len(),
{
    if items.len() == 0 {
        Seq::empty()
    } else {
        run_text(items.drop_last()) + match items.last() {
            RunItem::Text(t) => t@,
            RunItem::Other => Seq::empty(),
        }
    }
}

/// The concatenated text of the runs of a paragraph.
pub open spec fn paragraph_text(items: Seq<ParagraphItem>) -> Seq<char>
    decreases items.len(),
{
    if items.len() == 0 {
        Seq::empty()
    } else {
        paragraph_text(items.drop_last()) + match items.last() {
            ParagraphItem::Run(r) => run_text(r@),
            ParagraphItem::Other => Seq::empty(),
        }
    }
}

/// The text of each paragraph of a body, in order; other children are left out.
pub open spec fn paragraphs_of(items: Seq<BodyItem>) -> Seq<Seq<char>>
    decreases items.len(),
{
    if items.len() == 0 {
        Seq::empty()
    } else {
        match items.last() {
            BodyItem::Paragraph(p) => paragraphs_of(items.drop_last()).push(paragraph_text(p@)),
            BodyItem::Other => paragraphs_of(items.drop_last()),
        }
    }
}

/// Texts joined with a blank line between each two.
pub open spec fn join_blank(parts: Seq<Seq<char>>) -> Seq<char>
    decreases parts.len(),
{
    if parts.len() == 0 {
        Seq::empty()
    } else if parts.len() == 1 {
        parts[0]
    } else {
        join_blank(parts.drop_last()) + seq!['\n', '\n'] + parts.last()
    }
}

/// The text of a document body: its paragraphs joined with a blank line.
pub open spec fn body_text(items: Seq<BodyItem>) -> Seq<char> {
    join_blank(paragraphs_of(items))
}

fn run_items_text(items: &Vec<RunItem>) -> (r: String)
    ensures
        r@ == run_text(items@),
{
    let mut out = String::new();
    let mut i: usize = 0;
    while i < items.len()
        invariant
            i <= items@.len(),
            out@ == run_text(items@.subrange(0, i as int)),
        decreases items@.len() - i,
    {
        assert(items@.subrange(0, i + 1).drop_last() == items@.subrange(0, i as int));
        match &items[i] {
            RunItem::Text(t) => out.append(t.as_str()),
            RunItem::Other => {},
        }
        i = i + 1;
    }
    assert(items@.subrange(0, items@.len() as int) == items@);
    out
}

fn paragraph_items_text(items: &Vec<ParagraphItem>) -> (r: String)
    ensures
        r@ == paragraph_text(items@),
{
    let mut out = String::new();
    let mut i: usize = 0;
    while i < items.len()
        invariant
            i <= items@.len(),
            out@ == paragraph_text(items@.subrange(0, i as int)),
        decreases items@.len() - i,
    {
        assert(items@.subrange(0, i + 1).drop_last() == items@.subrange(0, i as int));
        match &items[i] {
            ParagraphItem::Run(run) => {
                let t = run_items_text(run);
                out.append(t.as_str());
            },
            ParagraphItem::Other => {},
        }
        i = i + 1;
    }
    assert(items@.subrange(0, items@.len() as int) == items@);
    out
}

/// The text of a document body: the text fragments of each paragraph's runs
/// concatenated, paragraphs joined with a blank line, other children ignored.
pub fn docx_text(body: &Vec<BodyItem>) -> (r: String)
    ensures
        r@ == body_text(body@),
{
    let mut out = String::new();
    let mut seen = false;
    let mut i: usize = 0;
    while i < body.len()
        invariant
            i <= body@.len(),
            seen == (paragraphs_of(body@.subrange(0, i as int)).len() > 0),
            out@ == join_blank(paragraphs_of(body@.subrange(0, i as int))),
        decreases body@.len() - i,
    {
        let ghost before = paragraphs_of(body@.subrange(0, i as int));
        assert(body@.subrange(0, i + 1).drop_last() == body@.subrange(0, i as int));
        match &body[i] {
            BodyItem::Paragraph(p) => {
                let t = paragraph_items_text(p);
                if seen {
                    out.append("\n\n");
                }
                out.append(t.as_str());
                seen = true;
                proof {
                    reveal_strlit("\n\n");
                    let after = before.push(t@);
                    assert(after.drop_last() == before);
                    if before.len() == 0 {
                        assert(out@ == after[0]);
                    }
                }
            },
            BodyItem::Other => {},
        }
        i = i + 1;
    }
    assert(body@.subrange(0, body@.len() as int) == body@);
    out
}

/// Extracts text from document files, by the file name's extension.
pub struct DocumentLoader;

impl DocumentLoader {
    /// The text content of a PDF file.
    pub fn load_pdf(content: &[u8]) -> (r: Result<String, LoadError>)
        requires
            pdf_returns(content@),
        ensures
            match pdf_text_of(content@) {
                Some(t) => r is Ok && r->Ok_0@ == t,
                None => r == Err::<String, LoadError>(LoadError::ParseFailure),
            },
    {
        match extract_pdf_text(content) {
            Some(t) => Ok(t),
            None => Err(LoadError::ParseFailure),
        }
    }

    /// The text of a DOCX file; it fails where the package cannot be opened.
    pub fn load_docx(content: &[u8]) -> (r: Result<String, LoadError>)
        requires
            docx_returns(content@),
        ensures
            r is Ok <==> docx_readable(content@),
            r is Err ==> r->Err_0 == LoadError::ParseFailure,
            r is Ok ==> r->Ok_0@ == body_text(docx_body_of(content@)),
    {
        match read_docx_body(content) {
            Some(body) => Ok(docx_text(&body)),
            None => Err(LoadError::ParseFailure),
        }
    }

    /// The text of a plain-text file; it never fails.
    pub fn load_txt(content: &[u8]) -> (r: Result<String, LoadError>)
        ensures
            r is Ok,
            r->Ok_0@ == plain_text_of(content@),
            content@.len() == 0 ==> r->Ok_0@.len() == 0,
    {
        match decode_utf8_text(content) {
            Some(t) => Ok(t),
            None => Ok(decode_windows_1252(content)),
        }
    }

    /// The text of a file, by its extension, compared without regard to case.
    pub fn load_document(content: &[u8], filename: &str) -> (r: Result<String, LoadError>)
        requires
            extraction_returns(content@, filename@),
        ensures
            file_kind(filename@) == "pdf"@ ==> match pdf_text_of(content@) {
                Some(t) => r is Ok && r->Ok_0@ == t,
                None => r == Err::<String, LoadError>(LoadError::ParseFailure),
            },
            file_kind(filename@) == "docx"@ ==> (r is Ok <==> docx_readable(content@)) && (r is Err
                ==> r->Err_0 == LoadError::ParseFailure) && (r is Ok ==> r->Ok_0@ == body_text(
                docx_body_of(content@),
            )),
            file_kind(filename@) == "txt"@ ==> r is Ok && r->Ok_0@ == plain_text_of(content@) && (
            content@.len() == 0 ==> r->Ok_0@.len() == 0),
            file_kind(filename@) != "pdf"@ && file_kind(filename@) != "docx"@ && file_kind(
                filename@,
            ) != "txt"@ ==> r == Err::<String, LoadError>(LoadError::UnsupportedFormat),
    {
        let kind = Self::get_file_type(filename);
        proof {
            reveal_strlit("pdf");
            reveal_strlit("docx");
            reveal_strlit("txt");
            assert("pdf"@[0] != "txt"@[0]);
        }
        if same_text(kind.as_str(), "pdf") {
            Self::load_pdf(content)
        } else if same_text(kind.as_str(), "docx") {
            Self::load_docx(content)
        } else if same_text(kind.as_str(), "txt") {
            Self::load_txt(content)
        } else {
            Err(LoadError::UnsupportedFormat)
        }
    }

    /// The lowercased extension of a file name, empty where it has none.
    pub fn get_file_type(filename: &str) -> (r: String)
        ensures
            r@ == file_kind(filename@),
    {
        let n = filename.unicode_len();
        let end = find_base_end(filename);
        proof {
            lemma_base_end_bounds(filename@, n as int);
        }
        let slash = find_last(filename, '/', end);
        let dot = find_last(filename, '.', end);
        proof {
            lemma_last_index_bounds(filename@, '/', end as int);
            lemma_last_index_bounds(filename@, '.', end as int);
        }
        let seg: usize = match slash {
            Some(i) => i + 1,
            None => 0,
        };
        match dot {
            Some(d) => {
                if d > seg && d + 1 < end {
                    lowercase(filename.substring_char(d + 1, end))
                } else {
                    String::new()
                }
            },
            None => String::new(),
        }
    }
}

} // verus!
