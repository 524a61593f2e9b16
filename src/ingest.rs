use vstd::prelude::*;

use crate::document_loader::{
    body_text, docx_body_of, docx_readable, extraction_returns, file_kind, pdf_text_of,
    DocumentLoader, LoadError,
};
use crate::models::DocumentInfo;

verus! {

/// Whether a character has the Unicode White_Space property.
pub open spec fn is_white_space(c: char) -> bool {
    let u = c as u32;
    ||| 0x09 <= u <= 0x0D
    ||| u == 0x20 || u == 0x85 || u == 0xA0 || u == 0x1680
    ||| 0x2000 <= u <= 0x200A
    ||| u == 0x2028 || u == 0x2029 || u == 0x202F || u == 0x205F || u == 0x3000
}

/// The characters left once leading white space is removed.
pub open spec fn trim_start_of(s: Seq<char>) -> Seq<char>
    decreases s.len(),
{
    if s.len() > 0 && is_white_space(s[0]) {
        trim_start_of(s.drop_first())
    } else {
        s
    }
}

/// The characters left once trailing white space is removed.
pub open spec fn trim_end_of(s: Seq<char>) -> Seq<char>
    decreases s.len(),
{
    if s.len() > 0 && is_white_space(s.last()) {
        trim_end_of(s.drop_last())
    } else {
        s
    }
}

/// The characters left once leading and trailing white space is removed.
pub open spec fn trim_of(s: Seq<char>) -> Seq<char> {
    trim_end_of(trim_start_of(s))
}

/// Relies on `str::trim`, which removes leading and trailing characters that have
/// the Unicode White_Space property.
#[verifier::external_body]
fn trimmed(s: &str) -> (r: String)
    ensures
        r@ == trim_of(s@),
{
    s.trim().to_string()
}

/// Relies on `uuid::Uuid::new_v4` and its hyphenated text form, which is 36 characters.
#[verifier::external_body]
fn new_document_id() -> (r: String)
    ensures
        r@.len() == 36,
{
    uuid::Uuid::new_v4().to_string()
}

/// Relies on `chrono::Utc::now`, written in RFC 3339 form to the second; a zero
/// offset is written as `Z`.
#[verifier::external_body]
fn utc_timestamp_now() -> (r: String)
    ensures
        r@.len() > 0,
        r@.last() == 'Z',
{
    chrono::Utc::now().to_rfc3339_opts(chrono::SecondsFormat::Secs, true)
}

/// The failures that the operations of this library report.
#[derive(Clone, Copy, Debug, PartialEq, Eq, Structural)]
pub enum ErrorKind {
    UnsupportedFormat,
    ParseFailure,
    EmptyDocument,
    InvalidArgument,
    StoreUnavailable,
    EmbeddingFailure,
    RetrievalFailure,
    GenerationFailure,
}

/// The description of each failure.
pub open spec fn error_text(e: ErrorKind) -> Seq<char> {
    match e {
        ErrorKind::UnsupportedFormat => "Unsupported file type"@,
        ErrorKind::ParseFailure => "Failed to load document"@,
        ErrorKind::EmptyDocument => "No text could be extracted from the document"@,
        ErrorKind::InvalidArgument => "Invalid argument"@,
        ErrorKind::StoreUnavailable => "Failed to load vector store"@,
        ErrorKind::EmbeddingFailure => "Failed to embed text"@,
        ErrorKind::RetrievalFailure => "Failed to retrieve relevant documents"@,
        ErrorKind::GenerationFailure => "Failed to generate chat message"@,
    }
}

impl ErrorKind {
    /// A human-readable description of the failure.
    pub fn message(&self) -> (r: String)
        ensures
            r@ == error_text(*self),
    {
        match self {
            ErrorKind::UnsupportedFormat => String::from_str("Unsupported file type"),
            ErrorKind::ParseFailure => String::from_str("Failed to load document"),
            ErrorKind::EmptyDocument => String::from_str(
                "No text could be extracted from the document",
            ),
            ErrorKind::InvalidArgument => String::from_str("Invalid argument"),
            ErrorKind::StoreUnavailable => String::from_str("Failed to load vector store"),
            ErrorKind::EmbeddingFailure => String::from_str("Failed to embed text"),
            ErrorKind::RetrievalFailure => String::from_str(
                "Failed to retrieve relevant documents",
            ),
            ErrorKind::GenerationFailure => String::from_str("Failed to generate chat message"),
        }
    }
}

/// The error of an ingestion that an extraction error leads to.
pub open spec fn load_error_kind(e: LoadError) -> ErrorKind {
    match e {
        LoadError::UnsupportedFormat => ErrorKind::UnsupportedFormat,
        LoadError::ParseFailure => ErrorKind::ParseFailure,
    }
}

/// The text to embed, from the outcome of an extraction: the extracted text trimmed,
/// or `EmptyDocument` where nothing is left of it.
pub fn ingest_extracted(extracted: Result<String, LoadError>) -> (r: Result<String, ErrorKind>)
    ensures
        extracted is Err ==> r == Err::<String, ErrorKind>(load_error_kind(extracted->Err_0)),
        extracted is Ok && trim_of(extracted->Ok_0@).len() == 0 ==> r == Err::<
            String,
            ErrorKind,
        >(ErrorKind::EmptyDocument),
        extracted is Ok && extracted->Ok_0@.len() == 0 ==> r == Err::<String, ErrorKind>(
            ErrorKind::EmptyDocument,
        ),
        extracted is Ok && trim_of(extracted->Ok_0@).len() > 0 ==> r is Ok && r->Ok_0@ == trim_of(
            extracted->Ok_0@,
        ),
{
    match extracted {
        Err(LoadError::UnsupportedFormat) => Err(ErrorKind::UnsupportedFormat),
        Err(LoadError::ParseFailure) => Err(ErrorKind::ParseFailure),
        Ok(t) => {
            let text = trimmed(t.as_str());
            if text.unicode_len() == 0 {
                Err(ErrorKind::EmptyDocument)
            } else {
                Ok(text)
            }
        },
    }
}

/// A document ready to be stored: its record and the text to embed.
pub struct PreparedDocument {
    pub info: DocumentInfo,
    pub text: String,
}

/// The record of an upload: a fresh id and timestamp, the name, its kind, and the size.
pub fn new_record(name: &str, size: usize) -> (r: DocumentInfo)
    requires
        size <= i64::MAX,
    ensures
        r.id@.len() == 36,
        r.name@ == name@,
        r.kind@ == file_kind(name@),
        r.size == size as i64,
        r.timestamp@.len() > 0 && r.timestamp@.last() == 'Z',
{
    DocumentInfo {
        id: new_document_id(),
        name: String::from_str(name),
        kind: DocumentLoader::get_file_type(name),
        timestamp: utc_timestamp_now(),
        size: size as i64,
    }
}

/// Extracts the text of an uploaded file and makes its record. It fails, before any
/// record is made, where extraction fails or leaves only white space.
pub fn prepare_upload(name: &str, content: &[u8]) -> (r: Result<PreparedDocument, ErrorKind>)
    requires
        content@.len() <= i64::MAX,
        extraction_returns(content@, name@),
    ensures
        file_kind(name@) != "pdf"@ && file_kind(name@) != "docx"@ && file_kind(name@) != "txt"@
            ==> r == Err::<PreparedDocument, ErrorKind>(ErrorKind::UnsupportedFormat),
        r is Err ==> r->Err_0 == ErrorKind::UnsupportedFormat || r->Err_0
            == ErrorKind::ParseFailure || r->Err_0 == ErrorKind::EmptyDocument,
        r is Ok ==> {
            let d = r->Ok_0;
            &&& d.info.id@.len() == 36
            &&& d.info.name@ == name@
            &&& d.info.kind@ == file_kind(name@)
            &&& d.info.size == content@.len()
            &&& d.info.timestamp@.len() > 0 && d.info.timestamp@.last() == 'Z'
            &&& d.text@.len() > 0
        },
        file_kind(name@) == "pdf"@ ==> match pdf_text_of(content@) {
            None => r == Err::<PreparedDocument, ErrorKind>(ErrorKind::ParseFailure),
            Some(t) => {
                &&& trim_of(t).len() == 0 ==> r == Err::<PreparedDocument, ErrorKind>(
                    ErrorKind::EmptyDocument,
                )
                &&& trim_of(t).len() > 0 ==> r is Ok && r->Ok_0.text@ == trim_of(t)
            },
        },
        file_kind(name@) == "docx"@ ==> if !docx_readable(content@) {
            r == Err::<PreparedDocument, ErrorKind>(ErrorKind::ParseFailure)
        } else {
            let t = trim_of(body_text(docx_body_of(content@)));
            &&& t.len() == 0 ==> r == Err::<PreparedDocument, ErrorKind>(ErrorKind::EmptyDocument)
            &&& t.len() > 0 ==> r is Ok && r->Ok_0.text@ == t
        },
        file_kind(name@) == "txt"@ && content@.len() == 0 ==> r == Err::<PreparedDocument, ErrorKind>(
            ErrorKind::EmptyDocument,
        ),
        file_kind(name@) == "txt"@ ==> {
            let t = trim_of(crate::document_loader::plain_text_of(content@));
            &&& t.len() == 0 ==> r == Err::<PreparedDocument, ErrorKind>(ErrorKind::EmptyDocument)
            &&& t.len() > 0 ==> r is Ok && r->Ok_0.text@ == t
        },
{
    let extracted = DocumentLoader::load_document(content, name);
    let text = ingest_extracted(extracted)?;
    let info = new_record(name, content.len());
    Ok(PreparedDocument { info, text })
}

/// Whether a deletion removed anything, from the number of rows it affected.
pub fn removed_any(rows_affected: u64) -> (r: bool)
    ensures
        r == (rows_affected > 0),
{
    rows_affected > 0
}

/// Checks the number of results that a search asks for: it must be at least one.
pub fn validate_top_k(top_k: usize) -> (r: Result<usize, ErrorKind>)
    ensures
        top_k == 0 ==> r == Err::<usize, ErrorKind>(ErrorKind::InvalidArgument),
        top_k > 0 ==> r == Ok::<usize, ErrorKind>(top_k),
{
    if top_k == 0 {
        Err(ErrorKind::InvalidArgument)
    } else {
        Ok(top_k)
    }
}

} // verus!
