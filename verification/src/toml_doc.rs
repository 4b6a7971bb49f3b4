//! Trusted surface over the `toml` crate.
//!
//! The manifest is a TOML document.  Parsing is delegated to `toml`; what the
//! verified code needs to know of a parsed value is captured by [`ValModel`],
//! an abstract projection of a `toml::Value`: whether it is a string or a
//! table, which keys its table holds, and the string- and table-valued
//! entries among them.  The projection itself is uninterpreted — it is pinned
//! only by the contracts of the wrappers below, each of which states what one
//! `toml` function plainly does.

use vstd::prelude::*;

verus! {

#[verifier::external_type_specification]
#[verifier::external_body]
pub struct ExTomlValue(toml::Value);

#[verifier::external_type_specification]
#[verifier::external_body]
pub struct ExTomlDeError(toml::de::Error);

/// Abstract projection of a `toml::Value`.
///
/// - `str_of`: the character content when the value is a TOML string.
/// - `is_table`: whether the value is a TOML table.
/// - `keys`: the table's keys (empty when the value is not a table).
/// - `strs`: the table's string-valued entries.
/// - `table_keys`: the keys among `keys` whose entry is itself a table.
/// - `subs`: for each key of `table_keys`, the string-valued entries of the
///   table stored there.
/// - `sub_keys`: for each key of `table_keys`, all the keys of the table
///   stored there.
pub struct ValModel {
    pub str_of: Option<Seq<char>>,
    pub is_table: bool,
    pub keys: Set<Seq<char>>,
    pub strs: Map<Seq<char>, Seq<char>>,
    pub table_keys: Set<Seq<char>>,
    pub subs: Map<Seq<char>, Map<Seq<char>, Seq<char>>>,
    pub sub_keys: Map<Seq<char>, Set<Seq<char>>>,
}

/// Structural facts that hold of the projection of every `toml::Value`:
/// a value is a string or a table (or neither), never both; only tables have
/// keys; string- and table-valued entries lie among the keys and do not
/// overlap; `subs` and `sub_keys` are indexed exactly by the table-valued
/// keys, and a sub-table's string-valued entries lie among its keys.
pub open spec fn val_wf(m: ValModel) -> bool {
    &&& (m.str_of is Some ==> !m.is_table)
    &&& (!m.is_table ==> m.keys == Set::<Seq<char>>::empty())
    &&& m.strs.dom().subset_of(m.keys)
    &&& m.table_keys.subset_of(m.keys)
    &&& m.strs.dom().disjoint(m.table_keys)
    &&& m.subs.dom() == m.table_keys
    &&& m.sub_keys.dom() == m.table_keys
    &&& (forall|k: Seq<char>|
        m.table_keys.contains(k) ==> (#[trigger] m.subs[k]).dom().subset_of(m.sub_keys[k]))
}

/// The projection of a `toml::Value`.  Uninterpreted: every fact the proofs
/// use about it is stated in the wrappers below.
pub uninterp spec fn val_model(v: toml::Value) -> ValModel;

/// The projection of the document a text parses to, when the text is a
/// well-formed TOML document.  Uninterpreted: `toml` parsing is a
/// deterministic function of the text, and this names its outcome.
pub uninterp spec fn doc_model(s: Seq<char>) -> Option<ValModel>;

/// Relies on `toml::from_str::<toml::Value>`: parsing is deterministic in the
/// text, returns `Ok` exactly on well-formed TOML documents, and a document's
/// root is a table.
#[verifier::external_body]
pub(crate) fn parse_toml(s: &str) -> (r: Result<toml::Value, toml::de::Error>)
    ensures
        r is Ok <==> doc_model(s@) is Some,
        r matches Ok(v) ==> {
            &&& Some(val_model(v)) == doc_model(s@)
            &&& val_model(v).is_table
            &&& val_wf(val_model(v))
        },
{
    toml::from_str::<toml::Value>(s)
}

/// Relies on `toml::Value::get` with a string index: on a table it returns the
/// entry stored at the key, on any other value or an absent key it returns
/// `None`.
#[verifier::external_body]
pub(crate) fn value_get<'a>(v: &'a toml::Value, key: &str) -> (r: Option<&'a toml::Value>)
    ensures
        r is Some <==> (val_model(*v).is_table && val_model(*v).keys.contains(key@)),
        r matches Some(u) ==> {
            &&& val_wf(val_model(*u))
            &&& (val_model(*u).str_of is Some <==> val_model(*v).strs.dom().contains(key@))
            &&& (val_model(*v).strs.dom().contains(key@) ==> val_model(*u).str_of == Some(
                val_model(*v).strs[key@],
            ))
            &&& (val_model(*u).is_table <==> val_model(*v).table_keys.contains(key@))
            &&& (val_model(*v).table_keys.contains(key@) ==> val_model(*u).strs == val_model(
                *v,
            ).subs[key@] && val_model(*u).keys == val_model(*v).sub_keys[key@])
        },
{
    v.get(key)
}

/// Relies on `toml::Value::as_str`: `Some` exactly on the string variant, with
/// the string's content.
#[verifier::external_body]
pub(crate) fn value_as_str<'a>(v: &'a toml::Value) -> (r: Option<&'a str>)
    ensures
        r is Some <==> val_model(*v).str_of is Some,
        r matches Some(t) ==> val_model(*v).str_of == Some(t@),
{
    v.as_str()
}

/// Relies on `toml::Value::is_table`: true exactly on the table variant.
#[verifier::external_body]
pub(crate) fn value_is_table(v: &toml::Value) -> (r: bool)
    ensures
        r == val_model(*v).is_table,
{
    v.is_table()
}

} // verus!
