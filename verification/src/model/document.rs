//! Tables of the configuration file format, as read and written by the `toml`
//! crate.

use vstd::prelude::*;

verus! {

/// `toml::map::Map` of the `toml` crate, a table of a document.
#[verifier::external_type_specification]
#[verifier::external_body]
#[verifier::reject_recursive_types(K)]
#[verifier::reject_recursive_types(V)]
pub struct ExTable<K, V>(toml::map::Map<K, V>);

/// `toml::Value` of the `toml` crate, a value of a table that is written.
#[verifier::external_type_specification]
#[verifier::external_body]
pub struct ExValue(toml::Value);

/// `toml::de::DeValue` of the `toml` crate, a value of a table that was read.
#[verifier::external_type_specification]
#[verifier::external_body]
pub struct ExReadValue<'i>(toml::de::DeValue<'i>);

/// `toml::Spanned` of the `toml` crate: a key or a value, and where in the text it
/// stands.
#[verifier::external_type_specification]
#[verifier::external_body]
#[verifier::reject_recursive_types(T)]
pub struct ExSpanned<T>(toml::Spanned<T>);

/// `toml::de::Error` of the `toml` crate.
#[verifier::external_type_specification]
#[verifier::external_body]
pub struct ExReadError(toml::de::Error);

/// `toml::ser::Error` of the `toml` crate.
#[verifier::external_type_specification]
#[verifier::external_body]
pub struct ExWriteError(toml::ser::Error);

/// A value of a table, as far as preferences care.
pub enum ItemView {
    /// A string.
    Text(Seq<char>),
    /// A boolean.
    Flag(bool),
    /// An array of this length.
    List(nat),
    /// A table.
    Nested(Seq<(Seq<char>, ItemView)>),
    /// A whole number, whichever it is.
    Integer,
    /// A number with a fraction, whichever it is.
    Fraction,
    /// A date or a time, whichever it is.
    Moment,
}

/// The keys and values of a table, in their order.
pub type Entries = Seq<(Seq<char>, ItemView)>;

/// A value of a table that was read. Of an array there is the length.
pub enum Item<'i> {
    Text(String),
    Flag(bool),
    List(usize),
    Nested(toml::de::DeTable<'i>),
    Integer,
    Fraction,
    Moment,
}

impl<'i> View for Item<'i> {
    type V = ItemView;

    open spec fn view(&self) -> ItemView {
        match *self {
            Item::Text(s) => ItemView::Text(s@),
            Item::Flag(b) => ItemView::Flag(b),
            Item::List(n) => ItemView::List(n as nat),
            Item::Nested(table) => ItemView::Nested(read_entries(table)),
            Item::Integer => ItemView::Integer,
            Item::Fraction => ItemView::Fraction,
            Item::Moment => ItemView::Moment,
        }
    }
}

/// A string or a boolean.
pub enum Scalar {
    Text(String),
    Flag(bool),
}

impl View for Scalar {
    type V = ItemView;

    open spec fn view(&self) -> ItemView {
        match *self {
            Scalar::Text(s) => ItemView::Text(s@),
            Scalar::Flag(b) => ItemView::Flag(b),
        }
    }
}

/// The keys and values that a table that was read holds, in their order.
pub uninterp spec fn read_entries(table: toml::de::DeTable<'_>) -> Seq<(Seq<char>, ItemView)>;

/// The keys and values that a table that is written holds, in their order.
pub uninterp spec fn table_entries(table: toml::map::Map<String, toml::Value>) -> Seq<
    (Seq<char>, ItemView),
>;

/// Whether a text is a document with nothing but values that can be represented:
/// no number is too large.
pub uninterp spec fn is_document(text: Seq<char>) -> bool;

/// The entries of the document that a text holds, if it holds one.
pub uninterp spec fn document_entries(text: Seq<char>) -> Option<Seq<(Seq<char>, ItemView)>>;

/// The value of `key`.
pub open spec fn entry_of(entries: Entries, key: Seq<char>) -> Option<ItemView>
    decreases entries.len(),
{
    if entries.len() == 0 {
        None
    } else if entries.last().0 == key {
        Some(entries.last().1)
    } else {
        entry_of(entries.drop_last(), key)
    }
}

/// Whether `c` is a letter of the English alphabet.
pub open spec fn is_letter(c: char) -> bool {
    'a' <= c <= 'z' || 'A' <= c <= 'Z'
}

/// Whether a key needs no quotes.
pub open spec fn is_plain_key(key: Seq<char>) -> bool {
    key.len() > 0 && forall|i: int| 0 <= i < key.len() ==> is_letter(#[trigger] key[i]) || key[i] == '_'
}

/// Whether a value is a boolean, or a string of letters.
pub open spec fn is_plain_item(item: ItemView) -> bool {
    match item {
        ItemView::Text(s) => forall|i: int| 0 <= i < s.len() ==> is_letter(#[trigger] s[i]),
        ItemView::Flag(_) => true,
        _ => false,
    }
}

/// Whether a table holds nothing but words and booleans under plain keys.
pub open spec fn is_plain(entries: Entries) -> bool {
    forall|i: int|
        0 <= i < entries.len() ==> is_plain_key((#[trigger] entries[i]).0) && is_plain_item(
            entries[i].1,
        )
}

/// How a word or a boolean is written.
pub open spec fn item_text(item: ItemView) -> Seq<char> {
    match item {
        ItemView::Text(s) => "\""@ + s + "\""@,
        ItemView::Flag(true) => "true"@,
        _ => "false"@,
    }
}

/// The line of an entry.
pub open spec fn entry_line(key: Seq<char>, item: ItemView) -> Seq<char> {
    key + " = "@ + item_text(item) + "\n"@
}

/// The text of a document of words and booleans: a line for each entry.
pub open spec fn document_text(entries: Entries) -> Seq<char>
    decreases entries.len(),
{
    if entries.len() == 0 {
        Seq::empty()
    } else {
        document_text(entries.drop_last()) + entry_line(entries.last().0, entries.last().1)
    }
}

/// `toml::from_str` of the `toml` crate, reading a whole document and leaving all
/// its values aside, as it does with values that nobody asks for. The contract
/// names the texts for which it succeeds.
#[verifier::external_body]
pub(crate) fn skip_document(text: &str) -> (skipped: Result<(), toml::de::Error>)
    ensures
        skipped is Ok <==> is_document(text@),
{
    toml::from_str::<serde::de::IgnoredAny>(text).map(|_| ())
}

/// `toml::de::DeTable::parse` of the `toml` crate, reading a whole document. The
/// contract names what it reads, and says that it fails exactly where it reads no
/// document.
#[verifier::external_body]
pub(crate) fn read_document<'i>(text: &'i str) -> (table: Result<
    toml::de::DeTable<'i>,
    toml::de::Error,
>)
    ensures
        match table {
            Ok(t) => document_entries(text@) == Some(read_entries(t)),
            Err(_) => document_entries(text@) is None,
        },
{
    toml::de::DeTable::parse(text).map(|table| table.into_inner())
}

/// `toml::map::Map::get` of the `toml` crate: the value of a key, if there is
/// one.
#[verifier::external_body]
pub(crate) fn table_item<'i>(table: &toml::de::DeTable<'i>, key: &str) -> (item: Option<Item<'i>>)
    ensures
        match item {
            Some(i) => entry_of(read_entries(*table), key@) == Some(i@),
            None => entry_of(read_entries(*table), key@) is None,
        },
{
    table.get(key).map(
        |value|
            match value.get_ref() {
                toml::de::DeValue::String(s) => Item::Text(s.to_string()),
                toml::de::DeValue::Boolean(b) => Item::Flag(*b),
                toml::de::DeValue::Array(values) => Item::List(values.len()),
                toml::de::DeValue::Table(nested) => Item::Nested(nested.clone()),
                toml::de::DeValue::Integer(_) => Item::Integer,
                toml::de::DeValue::Float(_) => Item::Fraction,
                toml::de::DeValue::Datetime(_) => Item::Moment,
            },
    )
}

/// `toml::map::Map::keys` of the `toml` crate: the keys of a table, in order.
#[verifier::external_body]
pub(crate) fn table_keys(table: &toml::de::DeTable<'_>) -> (keys: Vec<String>)
    ensures
        keys@.len() == read_entries(*table).len(),
        forall|i: int|
            0 <= i < keys@.len() ==> (#[trigger] keys@[i])@ == read_entries(*table)[i].0,
{
    table.keys().map(|key| key.get_ref().to_string()).collect()
}

/// `toml::map::Map::new` of the `toml` crate: a table without entries.
#[verifier::external_body]
pub(crate) fn new_table() -> (table: toml::map::Map<String, toml::Value>)
    ensures
        table_entries(table) == Seq::<(Seq<char>, ItemView)>::empty(),
{
    toml::map::Map::new()
}

/// `toml::map::Map::insert` of the `toml` crate, with the feature that keeps
/// tables in order: a key that is new goes behind the others.
#[verifier::external_body]
pub(crate) fn table_insert(
    table: &mut toml::map::Map<String, toml::Value>,
    key: &str,
    value: Scalar,
)
    requires
        entry_of(table_entries(*old(table)), key@) is None,
    ensures
        table_entries(*final(table)) == table_entries(*old(table)).push((key@, value@)),
{
    let value = match value {
        Scalar::Text(s) => toml::Value::String(s),
        Scalar::Flag(b) => toml::Value::Boolean(b),
    };
    table.insert(String::from(key), value);
}

/// `toml::to_string_pretty` of the `toml` crate, writing a table of words and
/// booleans. The contract gives the text, a line for each entry, says that such a
/// table can always be written, that the text is a document, and that reading it
/// gives the entries of the table again.
#[verifier::external_body]
pub(crate) fn write_document(table: &toml::map::Map<String, toml::Value>) -> (text: Result<
    String,
    toml::ser::Error,
>)
    requires
        is_plain(table_entries(*table)),
    ensures
        text is Ok,
        text->Ok_0@ == document_text(table_entries(*table)),
        is_document(text->Ok_0@),
        document_entries(text->Ok_0@) == Some(table_entries(*table)),
{
    toml::to_string_pretty(table)
}

} // verus!
