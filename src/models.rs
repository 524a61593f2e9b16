use vstd::prelude::*;

use crate::text::same_text;

verus! {

/// What is known of an ingested document; one record per uploaded file.
#[derive(Clone, Debug)]
pub struct DocumentInfo {
    pub id: String,
    pub name: String,
    pub kind: String,
    pub timestamp: String,
    pub size: i64,
}

/// The fields of a `DocumentInfo` as mathematical values.
pub struct RecordView {
    pub id: Seq<char>,
    pub name: Seq<char>,
    pub kind: Seq<char>,
    pub timestamp: Seq<char>,
    pub size: int,
}

impl View for DocumentInfo {
    type V = RecordView;

    open spec fn view(&self) -> RecordView {
        RecordView {
            id: self.id@,
            name: self.name@,
            kind: self.kind@,
            timestamp: self.timestamp@,
            size: self.size as int,
        }
    }
}

/// A value stored in a metadata entry.
#[derive(Clone, Debug)]
pub enum MetaValue {
    Text(String),
    Int(i64),
    Other,
}

/// One key/value annotation stored beside an embedding.
#[derive(Clone, Debug)]
pub struct MetaEntry {
    pub key: String,
    pub value: MetaValue,
}

/// The text stored under the first entry with `key`; empty where there is none,
/// or where its value is not text.
pub open spec fn text_field(m: Seq<MetaEntry>, key: Seq<char>) -> Seq<char>
    decreases m.len(),
{
    if m.len() == 0 {
        Seq::empty()
    } else if m[0].key@ == key {
        match m[0].value {
            MetaValue::Text(t) => t@,
            _ => Seq::empty(),
        }
    } else {
        text_field(m.drop_first(), key)
    }
}

/// The integer stored under the first entry with `key`; zero where there is none,
/// or where its value is not an integer.
pub open spec fn int_field(m: Seq<MetaEntry>, key: Seq<char>) -> int
    decreases m.len(),
{
    if m.len() == 0 {
        0
    } else if m[0].key@ == key {
        match m[0].value {
            MetaValue::Int(v) => v as int,
            _ => 0,
        }
    } else {
        int_field(m.drop_first(), key)
    }
}

/// The record that a metadata map describes, missing or mistyped fields defaulted.
pub open spec fn record_of(m: Seq<MetaEntry>) -> RecordView {
    RecordView {
        id: text_field(m, "id"@),
        name: text_field(m, "name"@),
        kind: text_field(m, "kind"@),
        timestamp: text_field(m, "timestamp"@),
        size: int_field(m, "size"@),
    }
}

/// Whether `m` is the metadata written for the record `v`: one entry per field.
pub open spec fn describes(m: Seq<MetaEntry>, v: RecordView) -> bool {
    &&& m.len() == 5
    &&& m[0].key@ == "id"@
    &&& (m[0].value matches MetaValue::Text(t) && t@ == v.id)
    &&& m[1].key@ == "name"@
    &&& (m[1].value matches MetaValue::Text(t) && t@ == v.name)
    &&& m[2].key@ == "kind"@
    &&& (m[2].value matches MetaValue::Text(t) && t@ == v.kind)
    &&& m[3].key@ == "size"@
    &&& (m[3].value matches MetaValue::Int(n) && n as int == v.size)
    &&& m[4].key@ == "timestamp"@
    &&& (m[4].value matches MetaValue::Text(t) && t@ == v.timestamp)
}

fn text_entry(key: &str, value: &String) -> (r: MetaEntry)
    ensures
        r.key@ == key@,
        (r.value matches MetaValue::Text(t) && t@ == value@),
{
    MetaEntry { key: String::from_str(key), value: MetaValue::Text(value.clone()) }
}

impl DocumentInfo {
    /// The metadata stored with the document's embedding.
    pub fn metadata(&self) -> (r: Vec<MetaEntry>)
        ensures
            describes(r@, self@),
    {
        let mut m: Vec<MetaEntry> = Vec::new();
        m.push(text_entry("id", &self.id));
        m.push(text_entry("name", &self.name));
        m.push(text_entry("kind", &self.kind));
        m.push(MetaEntry { key: String::from_str("size"), value: MetaValue::Int(self.size) });
        m.push(text_entry("timestamp", &self.timestamp));
        m
    }

    /// The record that stored metadata describes. A missing or mistyped field reads
    /// as empty text, or as zero for the size, rather than failing the read.
    pub fn from_metadata(m: &Vec<MetaEntry>) -> (r: DocumentInfo)
        ensures
            r@ == record_of(m@),
    {
        DocumentInfo {
            id: lookup_text(m, "id"),
            name: lookup_text(m, "name"),
            kind: lookup_text(m, "kind"),
            timestamp: lookup_text(m, "timestamp"),
            size: lookup_int(m, "size"),
        }
    }
}

/// The text under `key` in a metadata map, empty by default.
pub fn lookup_text(m: &Vec<MetaEntry>, key: &str) -> (r: String)
    ensures
        r@ == text_field(m@, key@),
{
    let mut i: usize = 0;
    assert(m@.subrange(0, m@.len() as int) == m@);
    while i < m.len()
        invariant
            i <= m@.len(),
            text_field(m@, key@) == text_field(m@.subrange(i as int, m@.len() as int), key@),
        decreases m@.len() - i,
    {
        assert(m@.subrange(i as int, m@.len() as int).drop_first() == m@.subrange(
            i + 1,
            m@.len() as int,
        ));
        let e = &m[i];
        if same_text(e.key.as_str(), key) {
            return match &e.value {
                MetaValue::Text(t) => t.clone(),
                _ => String::new(),
            };
        }
        i = i + 1;
    }
    String::new()
}

/// The integer under `key` in a metadata map, zero by default.
pub fn lookup_int(m: &Vec<MetaEntry>, key: &str) -> (r: i64)
    ensures
        r as int == int_field(m@, key@),
{
    let mut i: usize = 0;
    assert(m@.subrange(0, m@.len() as int) == m@);
    while i < m.len()
        invariant
            i <= m@.len(),
            int_field(m@, key@) == int_field(m@.subrange(i as int, m@.len() as int), key@),
        decreases m@.len() - i,
    {
        assert(m@.subrange(i as int, m@.len() as int).drop_first() == m@.subrange(
            i + 1,
            m@.len() as int,
        ));
        let e = &m[i];
        if same_text(e.key.as_str(), key) {
            return match &e.value {
                MetaValue::Int(v) => *v,
                _ => 0,
            };
        }
        i = i + 1;
    }
    0
}

/// The records described by the metadata of search results, in the results' order.
pub fn records_from_results(results: &Vec<Vec<MetaEntry>>) -> (r: Vec<DocumentInfo>)
    ensures
        r@.len() == results@.len(),
        forall|i: int| 0 <= i < r@.len() ==> #[trigger] r@[i]@ == record_of(results@[i]@),
{
    let mut out: Vec<DocumentInfo> = Vec::new();
    let mut i: usize = 0;
    while i < results.len()
        invariant
            i <= results@.len(),
            out@.len() == i,
            forall|j: int| 0 <= j < i ==> #[trigger] out@[j]@ == record_of(results@[j]@),
        decreases results@.len() - i,
    {
        out.push(DocumentInfo::from_metadata(&results[i]));
        i = i + 1;
    }
    out
}

/// Every field written into a record's metadata reads back unchanged.
pub proof fn lemma_metadata_round_trip(m: Seq<MetaEntry>, v: RecordView)
    requires
        describes(m, v),
    ensures
        record_of(m) == v,
{
    reveal_strlit("id");
    reveal_strlit("name");
    reveal_strlit("kind");
    reveal_strlit("size");
    reveal_strlit("timestamp");
    let m1 = m.drop_first();
    let m2 = m1.drop_first();
    let m3 = m2.drop_first();
    assert(m1[0] == m[1] && m2[0] == m[2] && m3[0] == m[3] && m3.drop_first()[0] == m[4]);
    assert("name"@[0] != "kind"@[0] && "name"@[0] != "size"@[0] && "kind"@[0] != "size"@[0]);
    assert("id"@.len() == 2 && "name"@.len() == 4 && "kind"@.len() == 4 && "size"@.len() == 4);
    assert("timestamp"@.len() == 9);
    assert("name"@ != "kind"@ && "name"@ != "size"@ && "name"@ != "timestamp"@);
    assert("kind"@ != "size"@ && "kind"@ != "timestamp"@ && "size"@ != "timestamp"@);
    assert(text_field(m, "name"@) == text_field(m1, "name"@));
    assert(text_field(m1, "kind"@) == text_field(m2, "kind"@));
    assert(text_field(m, "kind"@) == text_field(m2, "kind"@));
    assert(int_field(m, "size"@) == int_field(m1, "size"@));
    assert(int_field(m1, "size"@) == int_field(m2, "size"@));
    assert(int_field(m2, "size"@) == int_field(m3, "size"@));
    assert(text_field(m, "timestamp"@) == text_field(m1, "timestamp"@));
    assert(text_field(m1, "timestamp"@) == text_field(m2, "timestamp"@));
    assert(text_field(m2, "timestamp"@) == text_field(m3, "timestamp"@));
    assert(text_field(m3, "timestamp"@) == text_field(m3.drop_first(), "timestamp"@));
}

} // verus!
