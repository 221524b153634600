//! The metadata decoder: a TOML document holds a post's title, author,
//! dates, kind and synopsis. Parsing is the TOML library's business; which
//! fields are required, and what counts as missing or malformed, is decided
//! and proved here.
use vstd::prelude::*;
use crate::dates::Date;

verus! {

#[verifier::external_type_specification]
#[verifier::external_body]
#[verifier::reject_recursive_types(K)]
#[verifier::reject_recursive_types(V)]
pub struct ExTomlMap<K, V>(toml::map::Map<K, V>);

#[verifier::external_type_specification]
#[verifier::external_body]
pub struct ExTomlValue(toml::Value);

/// What a TOML value is to this crate: a text value, a timestamp that may or
/// may not carry a calendar date, or anything else.
pub enum TomlField {
    Text(Seq<char>),
    Timestamp(Option<Date>),
    Other,
}

/// Whether the TOML library accepts `s` as a document.
pub uninterp spec fn toml_parses(s: Seq<char>) -> bool;

/// The top-level key/field table of the document `s`, when it parses.
pub uninterp spec fn toml_doc(s: Seq<char>) -> Map<Seq<char>, TomlField>;

/// The key/field table that a parsed TOML table holds.
pub uninterp spec fn table_fields(t: toml::Table) -> Map<Seq<char>, TomlField>;

/// The field that a parsed TOML value stands for.
pub uninterp spec fn value_field(v: toml::Value) -> TomlField;

/// Relies on `toml::Table`'s `FromStr`: parses a TOML document into its
/// top-level table, or fails on a document the grammar refuses.
#[verifier::external_body]
fn parse_table(s: &str) -> (r: Option<toml::Table>)
    ensures
        r is Some <==> toml_parses(s@),
        r matches Some(t) ==> table_fields(t) == toml_doc(s@),
{
    match s.parse::<toml::Table>() {
        Ok(t) => Some(t),
        Err(_) => None,
    }
}

/// Relies on `toml::map::Map::get`: the value under `key`, if present.
#[verifier::external_body]
fn table_get<'a>(t: &'a toml::Table, key: &str) -> (r: Option<&'a toml::Value>)
    ensures
        r is Some <==> table_fields(*t).contains_key(key@),
        r matches Some(v) ==> value_field(*v) == table_fields(*t)[key@],
{
    t.get(key)
}

/// Relies on `toml::Value::as_str`: the payload of a TOML string value, and
/// nothing for a value of any other kind.
#[verifier::external_body]
fn value_text(v: &toml::Value) -> (r: Option<String>)
    ensures
        r is Some <==> value_field(*v) is Text,
        r matches Some(s) ==> value_field(*v) == TomlField::Text(s@),
{
    match v.as_str() {
        Some(s) => Some(s.to_owned()),
        None => None,
    }
}

/// Relies on `toml::Value::as_datetime`: the calendar-date component of a
/// TOML datetime value. A datetime may carry a time of day alone; only the
/// date part is kept, and its absence is reported as `Some(None)`.
#[verifier::external_body]
fn value_date(v: &toml::Value) -> (r: Option<Option<Date>>)
    ensures
        r is Some <==> value_field(*v) is Timestamp,
        r matches Some(d) ==> value_field(*v) == TomlField::Timestamp(d),
{
    match v.as_datetime() {
        None => None,
        Some(dt) => match dt.date {
            None => Some(None),
            Some(d) => Some(Some(Date { year: d.year, month: d.month, day: d.day })),
        },
    }
}

/// Model of a decoded post-metadata record.
pub struct MetadataModel {
    pub title: Seq<char>,
    pub author: Seq<char>,
    pub date_published: Date,
    pub date_updated: Date,
    pub post_type: Seq<char>,
    pub synopsis: Seq<char>,
}

/// A decoded post-metadata record. Immutable once decoded; built afresh for
/// each request and dropped with it.
#[derive(Clone, Debug, PartialEq, Eq)]
pub struct PostMetadata {
    pub title: String,
    pub author: String,
    pub date_published: Date,
    pub date_updated: Date,
    pub post_type: String,
    pub synopsis: String,
}

impl View for PostMetadata {
    type V = MetadataModel;

    open spec fn view(&self) -> MetadataModel {
        MetadataModel {
            title: self.title@,
            author: self.author@,
            date_published: self.date_published,
            date_updated: self.date_updated,
            post_type: self.post_type@,
            synopsis: self.synopsis@,
        }
    }
}

/// Why a metadata document was refused.
#[derive(Clone, Copy, Debug, PartialEq, Eq, Structural)]
pub enum DecodeError {
    /// The document is not TOML at all.
    Syntax,
    /// A required field is absent, or is not text where text is required.
    MissingField,
    /// A date field does not hold a timestamp with a calendar date.
    MalformedDate,
}

/// `k` holds a text field in `doc`.
pub open spec fn text_ok(doc: Map<Seq<char>, TomlField>, k: Seq<char>) -> bool {
    doc.contains_key(k) && doc[k] is Text
}

/// `k` holds a timestamp with a calendar date in `doc`.
pub open spec fn date_ok(doc: Map<Seq<char>, TomlField>, k: Seq<char>) -> bool {
    doc.contains_key(k) && doc[k] is Timestamp && (match doc[k] {
        TomlField::Timestamp(d) => d is Some,
        _ => false,
    })
}

/// The text under `k`.
pub open spec fn text_of(doc: Map<Seq<char>, TomlField>, k: Seq<char>) -> Seq<char> {
    match doc[k] {
        TomlField::Text(s) => s,
        _ => Seq::empty(),
    }
}

/// The date under `k`.
pub open spec fn date_of(doc: Map<Seq<char>, TomlField>, k: Seq<char>) -> Date {
    match doc[k] {
        TomlField::Timestamp(Some(d)) => d,
        _ => Date { year: 0, month: 0, day: 0 },
    }
}

/// What decoding a parsed table yields: the record, or the first failure in
/// field order. Text fields are missing when absent or not text; date fields
/// are missing when absent, and malformed when present without a calendar
/// date.
pub open spec fn spec_decode_doc(doc: Map<Seq<char>, TomlField>) -> Result<
    MetadataModel,
    DecodeError,
> {
    if !text_ok(doc, "title"@) {
        Err(DecodeError::MissingField)
    } else if !text_ok(doc, "author"@) {
        Err(DecodeError::MissingField)
    } else if !doc.contains_key("date_published"@) {
        Err(DecodeError::MissingField)
    } else if !date_ok(doc, "date_published"@) {
        Err(DecodeError::MalformedDate)
    } else if !doc.contains_key("date_updated"@) {
        Err(DecodeError::MissingField)
    } else if !date_ok(doc, "date_updated"@) {
        Err(DecodeError::MalformedDate)
    } else if !text_ok(doc, "post_type"@) {
        Err(DecodeError::MissingField)
    } else if !text_ok(doc, "synopsis"@) {
        Err(DecodeError::MissingField)
    } else {
        Ok(
            MetadataModel {
                title: text_of(doc, "title"@),
                author: text_of(doc, "author"@),
                date_published: date_of(doc, "date_published"@),
                date_updated: date_of(doc, "date_updated"@),
                post_type: text_of(doc, "post_type"@),
                synopsis: text_of(doc, "synopsis"@),
            },
        )
    }
}

/// What decoding a raw document yields.
pub open spec fn spec_decode(s: Seq<char>) -> Result<MetadataModel, DecodeError> {
    if !toml_parses(s) {
        Err(DecodeError::Syntax)
    } else {
        spec_decode_doc(toml_doc(s))
    }
}

/// The text under `key` in `t`, when `key` holds text.
fn get_text(t: &toml::Table, key: &str) -> (r: Option<String>)
    ensures
        r is Some <==> text_ok(table_fields(*t), key@),
        r matches Some(s) ==> table_fields(*t)[key@] == TomlField::Text(s@),
{
    match table_get(t, key) {
        None => None,
        Some(v) => value_text(v),
    }
}

/// The date under `key` in `t`: missing when the key is absent, malformed
/// when it is present without a calendar date.
fn get_date(t: &toml::Table, key: &str) -> (r: Result<Date, DecodeError>)
    ensures
        r matches Ok(d) ==> date_ok(table_fields(*t), key@) && d == date_of(
            table_fields(*t),
            key@,
        ),
        r == Err::<Date, DecodeError>(DecodeError::MissingField) <==> !table_fields(
            *t,
        ).contains_key(key@),
        r == Err::<Date, DecodeError>(DecodeError::MalformedDate) <==> (table_fields(
            *t,
        ).contains_key(key@) && !date_ok(table_fields(*t), key@)),
        r matches Err(e) ==> (e == DecodeError::MissingField || e == DecodeError::MalformedDate),
{
    match table_get(t, key) {
        None => Err(DecodeError::MissingField),
        Some(v) => match value_date(v) {
            None => Err(DecodeError::MalformedDate),
            Some(None) => Err(DecodeError::MalformedDate),
            Some(Some(d)) => Ok(d),
        },
    }
}

/// Decodes the six required fields out of a parsed TOML table.
pub fn decode_fields(t: &toml::Table) -> (r: Result<PostMetadata, DecodeError>)
    ensures
        match r {
            Ok(m) => spec_decode_doc(table_fields(*t)) == Ok::<MetadataModel, DecodeError>(m@),
            Err(e) => spec_decode_doc(table_fields(*t)) == Err::<MetadataModel, DecodeError>(e),
        },
{
    let title = match get_text(t, "title") {
        Some(s) => s,
        None => {
            return Err(DecodeError::MissingField);
        },
    };
    let author = match get_text(t, "author") {
        Some(s) => s,
        None => {
            return Err(DecodeError::MissingField);
        },
    };
    let date_published = match get_date(t, "date_published") {
        Ok(d) => d,
        Err(e) => {
            return Err(e);
        },
    };
    let date_updated = match get_date(t, "date_updated") {
        Ok(d) => d,
        Err(e) => {
            return Err(e);
        },
    };
    let post_type = match get_text(t, "post_type") {
        Some(s) => s,
        None => {
            return Err(DecodeError::MissingField);
        },
    };
    let synopsis = match get_text(t, "synopsis") {
        Some(s) => s,
        None => {
            return Err(DecodeError::MissingField);
        },
    };
    Ok(PostMetadata { title, author, date_published, date_updated, post_type, synopsis })
}

/// Decodes a raw metadata document: parse, then extract and validate the
/// required fields.
pub fn decode(s: &str) -> (r: Result<PostMetadata, DecodeError>)
    ensures
        match r {
            Ok(m) => spec_decode(s@) == Ok::<MetadataModel, DecodeError>(m@),
            Err(e) => spec_decode(s@) == Err::<MetadataModel, DecodeError>(e),
        },
{
    match parse_table(s) {
        None => Err(DecodeError::Syntax),
        Some(t) => decode_fields(&t),
    }
}

} // verus!
