//! The configuration file: a flat TOML document of keys and scalar values.
//!
//! Reading the text into a table is the work of the `toml` crate. Which keys
//! are known, what type each must have and how a record is laid out as a
//! document is decided here.

use vstd::prelude::*;
use crate::builder::{first_of, first_present, PartialView, WinstonConfigBuilder};
use crate::config::{text_view, ConfigView, WinstonConfig};
use crate::error::ConfigError;
use crate::number::F64Bits;

verus! {

pub const KEY_API_KEY: &'static str = "api_key";

pub const KEY_API_ENDPOINT: &'static str = "api_endpoint";

pub const KEY_ENDPOINT: &'static str = "endpoint";

pub const KEY_MODEL: &'static str = "model";

pub const KEY_MAX_TOKENS: &'static str = "max_tokens";

pub const KEY_TEMPERATURE: &'static str = "temperature";

pub const KEY_TOP_P: &'static str = "top_p";

pub const KEY_FREQUENCY_PENALTY: &'static str = "frequency_penalty";

pub const KEY_PRESENCE_PENALTY: &'static str = "presence_penalty";

pub const KEY_STOP: &'static str = "stop";

pub const KEY_STOP_SEQUENCE: &'static str = "stop_sequence";

pub const KEY_TIMEOUT: &'static str = "timeout";

/// A value of a document, as far as a configuration can use it.
#[derive(Clone, Debug, PartialEq, Eq)]
pub enum Item {
    Text(String),
    Integer(i64),
    Float(F64Bits),
    Boolean(bool),
    /// A date or time, an array or a table.
    Other,
}

/// What an [`Item`] holds, as a mathematical value.
pub enum ItemView {
    Text(Seq<char>),
    Integer(i64),
    Float(F64Bits),
    Boolean(bool),
    Other,
}

impl View for Item {
    type V = ItemView;

    open spec fn view(&self) -> ItemView {
        match self {
            Item::Text(s) => ItemView::Text(s@),
            Item::Integer(i) => ItemView::Integer(*i),
            Item::Float(x) => ItemView::Float(*x),
            Item::Boolean(b) => ItemView::Boolean(*b),
            Item::Other => ItemView::Other,
        }
    }
}

/// The values of a document by their keys.
pub type Items = Map<Seq<char>, ItemView>;

/// The map type of the `toml` crate, which holds a table. Nothing is known
/// of a value of it but what `table_items` names.
#[verifier::external_type_specification]
#[verifier::external_body]
#[verifier::reject_recursive_types(K)]
#[verifier::reject_recursive_types(V)]
pub struct ExTomlMap<K, V>(toml::map::Map<K, V>);

/// The value type of the `toml` crate. It only stands in the type of a
/// table: values are read through `table_get`.
#[verifier::external_type_specification]
#[verifier::external_body]
pub struct ExTomlValue(toml::Value);

/// The error with which the `toml` crate refuses a text. Nothing is read
/// from it.
#[verifier::external_type_specification]
#[verifier::external_body]
pub struct ExTomlError(toml::de::Error);

/// The entries at the top level of a table: each key with its value, a
/// scalar as it stands and anything else as `Other`.
pub uninterp spec fn table_items(table: toml::map::Map<String, toml::Value>) -> Map<
    Seq<char>,
    ItemView,
>;

/// The top-level entries of the document that a text is, or `None` where
/// the text is no TOML document.
pub uninterp spec fn parsed_items(text: Seq<char>) -> Option<Map<Seq<char>, ItemView>>;

/// `toml::from_str` at the type `toml::Table`. The parser reads nothing but
/// the text, so whether it accepts the text and which entries the table then
/// has are functions of the text: the contract gives them a name and claims
/// no more.
#[verifier::external_body]
fn parse_table(text: &str) -> (r: Result<toml::map::Map<String, toml::Value>, toml::de::Error>)
    ensures
        match r {
            Ok(table) => parsed_items(text@) == Some(table_items(table)),
            Err(_) => parsed_items(text@) is None,
        },
{
    toml::from_str(text)
}

/// `toml::map::Map::get` on a table, with the value it finds copied out as an
/// [`Item`]: `None` exactly where the table has no such key, else the value
/// under it.
#[verifier::external_body]
fn table_get(table: &toml::map::Map<String, toml::Value>, key: &str) -> (r: Option<Item>)
    ensures
        match r {
            Some(item) => table_items(*table).contains_key(key@) && table_items(*table)[key@]
                == item@,
            None => !table_items(*table).contains_key(key@),
        },
{
    match table.get(key) {
        None => None,
        Some(toml::Value::String(s)) => Some(Item::Text(s.clone())),
        Some(toml::Value::Integer(i)) => Some(Item::Integer(*i)),
        Some(toml::Value::Float(x)) => Some(Item::Float(F64Bits { bits: x.to_bits() })),
        Some(toml::Value::Boolean(b)) => Some(Item::Boolean(*b)),
        Some(toml::Value::Datetime(_)) => Some(Item::Other),
        Some(toml::Value::Array(_)) => Some(Item::Other),
        Some(toml::Value::Table(_)) => Some(Item::Other),
    }
}

/// Whether the value under a key, if there is one, is a text.
pub open spec fn text_or_absent(items: Items, key: Seq<char>) -> bool {
    items.contains_key(key) ==> items[key] is Text
}

/// Whether the value under a key, if there is one, is an integer that a
/// `u32` holds.
pub open spec fn count_or_absent(items: Items, key: Seq<char>) -> bool {
    items.contains_key(key) ==> (items[key] matches ItemView::Integer(i) && 0 <= i <= u32::MAX)
}

/// Whether the value under a key, if there is one, is a float. TOML tells
/// integers from floats, and an integer is not taken for a float.
pub open spec fn number_or_absent(items: Items, key: Seq<char>) -> bool {
    items.contains_key(key) ==> items[key] is Float
}

/// The text under a key.
pub open spec fn text_at(items: Items, key: Seq<char>) -> Option<Seq<char>> {
    if items.contains_key(key) && items[key] is Text {
        Some(items[key]->Text_0)
    } else {
        None
    }
}

/// The count under a key.
pub open spec fn count_at(items: Items, key: Seq<char>) -> Option<u32> {
    if items.contains_key(key) && items[key] is Integer {
        Some(items[key]->Integer_0 as u32)
    } else {
        None
    }
}

/// The number under a key.
pub open spec fn number_at(items: Items, key: Seq<char>) -> Option<F64Bits> {
    if items.contains_key(key) && items[key] is Float {
        Some(items[key]->Float_0)
    } else {
        None
    }
}

/// Whether every known key that the document has holds a value of the type
/// of its field.
pub open spec fn well_typed(items: Items) -> bool {
    &&& text_or_absent(items, KEY_API_KEY@)
    &&& text_or_absent(items, KEY_API_ENDPOINT@)
    &&& text_or_absent(items, KEY_ENDPOINT@)
    &&& text_or_absent(items, KEY_MODEL@)
    &&& count_or_absent(items, KEY_MAX_TOKENS@)
    &&& number_or_absent(items, KEY_TEMPERATURE@)
    &&& number_or_absent(items, KEY_TOP_P@)
    &&& number_or_absent(items, KEY_FREQUENCY_PENALTY@)
    &&& number_or_absent(items, KEY_PRESENCE_PENALTY@)
    &&& text_or_absent(items, KEY_STOP@)
    &&& text_or_absent(items, KEY_STOP_SEQUENCE@)
    &&& number_or_absent(items, KEY_TIMEOUT@)
}

/// What a well-typed document supplies. Keys that are not known count for
/// nothing. Of two spellings of one field the first wins: `api_endpoint`
/// over `endpoint`, `stop` over `stop_sequence`.
pub open spec fn supplied(items: Items) -> PartialView {
    PartialView {
        openai_api_key: text_at(items, KEY_API_KEY@),
        api_endpoint: first_present(
            text_at(items, KEY_API_ENDPOINT@),
            text_at(items, KEY_ENDPOINT@),
        ),
        model: text_at(items, KEY_MODEL@),
        max_tokens: count_at(items, KEY_MAX_TOKENS@),
        temperature: number_at(items, KEY_TEMPERATURE@),
        top_p: number_at(items, KEY_TOP_P@),
        frequency_penalty: number_at(items, KEY_FREQUENCY_PENALTY@),
        presence_penalty: number_at(items, KEY_PRESENCE_PENALTY@),
        stop: first_present(text_at(items, KEY_STOP@), text_at(items, KEY_STOP_SEQUENCE@)),
        timeout: number_at(items, KEY_TIMEOUT@),
    }
}

/// What a document gives: its values where it is well typed, else
/// `InvalidFileFormat`.
pub open spec fn decoded(items: Items) -> Result<PartialView, ConfigError> {
    if well_typed(items) {
        Ok(supplied(items))
    } else {
        Err(ConfigError::InvalidFileFormat)
    }
}

/// The view of an outcome that holds a builder.
pub open spec fn partial_result_view(r: Result<WinstonConfigBuilder, ConfigError>) -> Result<
    PartialView,
    ConfigError,
> {
    match r {
        Ok(b) => Ok(b@),
        Err(e) => Err(e),
    }
}

fn text_entry(table: &toml::map::Map<String, toml::Value>, key: &str) -> (r: Result<
    Option<String>,
    ConfigError,
>)
    ensures
        match r {
            Ok(v) => text_or_absent(table_items(*table), key@) && text_view(v) == text_at(
                table_items(*table),
                key@,
            ),
            Err(e) => e == ConfigError::InvalidFileFormat && !text_or_absent(
                table_items(*table),
                key@,
            ),
        },
{
    match table_get(table, key) {
        None => Ok(None),
        Some(Item::Text(s)) => Ok(Some(s)),
        Some(_) => Err(ConfigError::InvalidFileFormat),
    }
}

fn count_entry(table: &toml::map::Map<String, toml::Value>, key: &str) -> (r: Result<
    Option<u32>,
    ConfigError,
>)
    ensures
        match r {
            Ok(v) => count_or_absent(table_items(*table), key@) && v == count_at(
                table_items(*table),
                key@,
            ),
            Err(e) => e == ConfigError::InvalidFileFormat && !count_or_absent(
                table_items(*table),
                key@,
            ),
        },
{
    match table_get(table, key) {
        None => Ok(None),
        Some(Item::Integer(i)) => {
            if 0 <= i && i <= 0xffff_ffff {
                Ok(Some(i as u32))
            } else {
                Err(ConfigError::InvalidFileFormat)
            }
        },
        Some(_) => Err(ConfigError::InvalidFileFormat),
    }
}

fn number_entry(table: &toml::map::Map<String, toml::Value>, key: &str) -> (r: Result<
    Option<F64Bits>,
    ConfigError,
>)
    ensures
        match r {
            Ok(v) => number_or_absent(table_items(*table), key@) && v == number_at(
                table_items(*table),
                key@,
            ),
            Err(e) => e == ConfigError::InvalidFileFormat && !number_or_absent(
                table_items(*table),
                key@,
            ),
        },
{
    match table_get(table, key) {
        None => Ok(None),
        Some(Item::Float(x)) => Ok(Some(x)),
        Some(_) => Err(ConfigError::InvalidFileFormat),
    }
}

/// Reads a partial configuration out of a parsed document.
///
/// Keys that are not known are passed over. A known key with a value of
/// another type than its field's makes the whole document invalid.
pub fn partial_from_table(table: &toml::map::Map<String, toml::Value>) -> (r: Result<
    WinstonConfigBuilder,
    ConfigError,
>)
    ensures
        partial_result_view(r) == decoded(table_items(*table)),
{
    let openai_api_key = text_entry(table, KEY_API_KEY)?;
    let api_endpoint = text_entry(table, KEY_API_ENDPOINT)?;
    let endpoint = text_entry(table, KEY_ENDPOINT)?;
    let model = text_entry(table, KEY_MODEL)?;
    let max_tokens = count_entry(table, KEY_MAX_TOKENS)?;
    let temperature = number_entry(table, KEY_TEMPERATURE)?;
    let top_p = number_entry(table, KEY_TOP_P)?;
    let frequency_penalty = number_entry(table, KEY_FREQUENCY_PENALTY)?;
    let presence_penalty = number_entry(table, KEY_PRESENCE_PENALTY)?;
    let stop = text_entry(table, KEY_STOP)?;
    let stop_sequence = text_entry(table, KEY_STOP_SEQUENCE)?;
    let timeout = number_entry(table, KEY_TIMEOUT)?;
    Ok(
        WinstonConfigBuilder {
            openai_api_key,
            api_endpoint: first_of(api_endpoint, endpoint),
            model,
            max_tokens,
            temperature,
            top_p,
            frequency_penalty,
            presence_penalty,
            stop: first_of(stop, stop_sequence),
            timeout,
        },
    )
}

/// What the text of a configuration file gives.
pub open spec fn parsed(text: Seq<char>) -> Result<PartialView, ConfigError> {
    match parsed_items(text) {
        Some(items) => decoded(items),
        None => Err(ConfigError::InvalidFileFormat),
    }
}

/// Reads a partial configuration out of the text of a configuration file.
///
/// Fails with `InvalidFileFormat` where the text is no TOML document and
/// where a known key holds a value of the wrong type.
pub fn parse_config(text: &str) -> (r: Result<WinstonConfigBuilder, ConfigError>)
    ensures
        partial_result_view(r) == parsed(text@),
{
    match parse_table(text) {
        Ok(table) => partial_from_table(&table),
        Err(_) => Err(ConfigError::InvalidFileFormat),
    }
}

/// One line of a document: a key and its value.
#[derive(Clone, Debug, PartialEq, Eq)]
pub struct Entry {
    pub key: String,
    pub value: Item,
}

impl View for Entry {
    type V = (Seq<char>, ItemView);

    open spec fn view(&self) -> (Seq<char>, ItemView) {
        (self.key@, self.value@)
    }
}

/// The lines of a document, as mathematical values.
pub type Lines = Seq<(Seq<char>, ItemView)>;

/// The view of each entry, in order.
pub open spec fn lines_view(entries: Seq<Entry>) -> Lines {
    entries.map_values(|e: Entry| e@)
}

/// The values of a document by their keys; where a key stands twice, the
/// later line counts.
pub open spec fn items_of(lines: Lines) -> Items
    decreases lines.len(),
{
    if lines.len() == 0 {
        Map::empty()
    } else {
        items_of(lines.drop_last()).insert(lines.last().0, lines.last().1)
    }
}

impl ConfigView {
    /// The document that holds the record: one line for each field, the
    /// credential included, and none for a stop sequence that is absent.
    pub open spec fn document(self) -> Lines {
        let fixed = Seq::empty().push((KEY_API_KEY@, ItemView::Text(self.openai_api_key))).push(
            (KEY_API_ENDPOINT@, ItemView::Text(self.api_endpoint)),
        ).push((KEY_MODEL@, ItemView::Text(self.model))).push(
            (KEY_MAX_TOKENS@, ItemView::Integer(self.max_tokens as i64)),
        ).push((KEY_TEMPERATURE@, ItemView::Float(self.temperature))).push(
            (KEY_TOP_P@, ItemView::Float(self.top_p)),
        ).push((KEY_FREQUENCY_PENALTY@, ItemView::Float(self.frequency_penalty))).push(
            (KEY_PRESENCE_PENALTY@, ItemView::Float(self.presence_penalty)),
        ).push((KEY_TIMEOUT@, ItemView::Float(self.timeout)));
        match self.stop {
            Some(stop) => fixed.push((KEY_STOP@, ItemView::Text(stop))),
            None => fixed,
        }
    }

    /// The source that supplies every field of the record.
    pub open spec fn as_partial(self) -> PartialView {
        PartialView {
            openai_api_key: Some(self.openai_api_key),
            api_endpoint: Some(self.api_endpoint),
            model: Some(self.model),
            max_tokens: Some(self.max_tokens),
            temperature: Some(self.temperature),
            top_p: Some(self.top_p),
            frequency_penalty: Some(self.frequency_penalty),
            presence_penalty: Some(self.presence_penalty),
            stop: self.stop,
            timeout: Some(self.timeout),
        }
    }
}

fn text_line(key: &str, value: &String) -> (e: Entry)
    ensures
        e@ == (key@, ItemView::Text(value@)),
{
    Entry { key: String::from_str(key), value: Item::Text(value.clone()) }
}

fn number_line(key: &str, value: F64Bits) -> (e: Entry)
    ensures
        e@ == (key@, ItemView::Float(value)),
{
    Entry { key: String::from_str(key), value: Item::Float(value) }
}

impl WinstonConfig {
    /// Lays the record out as the lines of a configuration file.
    pub fn to_document(&self) -> (doc: Vec<Entry>)
        ensures
            lines_view(doc@) == self@.document(),
    {
        let mut doc: Vec<Entry> = Vec::new();
        doc.push(text_line(KEY_API_KEY, &self.openai_api_key));
        doc.push(text_line(KEY_API_ENDPOINT, &self.api_endpoint));
        doc.push(text_line(KEY_MODEL, &self.model));
        doc.push(
            Entry {
                key: String::from_str(KEY_MAX_TOKENS),
                value: Item::Integer(self.max_tokens as i64),
            },
        );
        doc.push(number_line(KEY_TEMPERATURE, self.temperature));
        doc.push(number_line(KEY_TOP_P, self.top_p));
        doc.push(number_line(KEY_FREQUENCY_PENALTY, self.frequency_penalty));
        doc.push(number_line(KEY_PRESENCE_PENALTY, self.presence_penalty));
        doc.push(number_line(KEY_TIMEOUT, self.timeout));
        match &self.stop {
            Some(stop) => {
                doc.push(text_line(KEY_STOP, stop));
            },
            None => {},
        }
        assert(lines_view(doc@) =~= self@.document());
        doc
    }
}

/// Adding a line to a document puts its value under its key.
proof fn items_of_push(lines: Lines, key: Seq<char>, value: ItemView)
    ensures
        items_of(lines.push((key, value))) == items_of(lines).insert(key, value),
{
    assert(lines.push((key, value)).drop_last() =~= lines);
}

/// The length and the first letter of each known key: enough to tell any
/// two of them apart.
proof fn key_facts()
    ensures
        KEY_API_KEY@.len() == 7 && KEY_API_KEY@[0] == 'a',
        KEY_API_ENDPOINT@.len() == 12,
        KEY_ENDPOINT@.len() == 8,
        KEY_MODEL@.len() == 5 && KEY_MODEL@[0] == 'm',
        KEY_MAX_TOKENS@.len() == 10,
        KEY_TEMPERATURE@.len() == 11,
        KEY_TOP_P@.len() == 5 && KEY_TOP_P@[0] == 't',
        KEY_FREQUENCY_PENALTY@.len() == 17,
        KEY_PRESENCE_PENALTY@.len() == 16,
        KEY_STOP@.len() == 4,
        KEY_STOP_SEQUENCE@.len() == 13,
        KEY_TIMEOUT@.len() == 7 && KEY_TIMEOUT@[0] == 't',
{
    reveal_strlit("api_key");
    reveal_strlit("api_endpoint");
    reveal_strlit("endpoint");
    reveal_strlit("model");
    reveal_strlit("max_tokens");
    reveal_strlit("temperature");
    reveal_strlit("top_p");
    reveal_strlit("frequency_penalty");
    reveal_strlit("presence_penalty");
    reveal_strlit("stop");
    reveal_strlit("stop_sequence");
    reveal_strlit("timeout");
}

/// A record that is laid out as a document and read back is supplied whole:
/// every field comes back with the value it had, and a stop sequence that
/// was absent stays absent.
pub proof fn document_round_trip(record: ConfigView)
    ensures
        decoded(items_of(record.document())) == Ok::<PartialView, ConfigError>(
            record.as_partial(),
        ),
{
    key_facts();
    let l0: Lines = Seq::empty();
    let l1 = l0.push((KEY_API_KEY@, ItemView::Text(record.openai_api_key)));
    let l2 = l1.push((KEY_API_ENDPOINT@, ItemView::Text(record.api_endpoint)));
    let l3 = l2.push((KEY_MODEL@, ItemView::Text(record.model)));
    let l4 = l3.push((KEY_MAX_TOKENS@, ItemView::Integer(record.max_tokens as i64)));
    let l5 = l4.push((KEY_TEMPERATURE@, ItemView::Float(record.temperature)));
    let l6 = l5.push((KEY_TOP_P@, ItemView::Float(record.top_p)));
    let l7 = l6.push((KEY_FREQUENCY_PENALTY@, ItemView::Float(record.frequency_penalty)));
    let l8 = l7.push((KEY_PRESENCE_PENALTY@, ItemView::Float(record.presence_penalty)));
    let l9 = l8.push((KEY_TIMEOUT@, ItemView::Float(record.timeout)));
    items_of_push(l0, KEY_API_KEY@, ItemView::Text(record.openai_api_key));
    items_of_push(l1, KEY_API_ENDPOINT@, ItemView::Text(record.api_endpoint));
    items_of_push(l2, KEY_MODEL@, ItemView::Text(record.model));
    items_of_push(l3, KEY_MAX_TOKENS@, ItemView::Integer(record.max_tokens as i64));
    items_of_push(l4, KEY_TEMPERATURE@, ItemView::Float(record.temperature));
    items_of_push(l5, KEY_TOP_P@, ItemView::Float(record.top_p));
    items_of_push(l6, KEY_FREQUENCY_PENALTY@, ItemView::Float(record.frequency_penalty));
    items_of_push(l7, KEY_PRESENCE_PENALTY@, ItemView::Float(record.presence_penalty));
    items_of_push(l8, KEY_TIMEOUT@, ItemView::Float(record.timeout));
    match record.stop {
        Some(stop) => {
            items_of_push(l9, KEY_STOP@, ItemView::Text(stop));
        },
        None => {},
    }
    let items = items_of(record.document());
    assert(well_typed(items));
    assert(supplied(items) == record.as_partial());
}

} // verus!
