//! Trusted boundary to the binary settings-store reader.
//!
//! The store is a gvdb file. Opening, key enumeration and value lookup are
//! the outside crate's work; the contracts here name their results over the
//! bytes the store was opened from, and everything downstream is proved
//! against those names.

use vstd::prelude::*;

verus! {

#[verifier::external_type_specification]
#[verifier::external_body]
pub struct ExGvdbFile<'a>(gvdb::read::File<'a>);

/// The bytes an open store was parsed from: the model every contract on the
/// store speaks of.
pub uninterp spec fn file_data(f: gvdb::read::File<'static>) -> Seq<u8>;

/// Whether `data` is a readable settings store: it parses as a store file,
/// its root table loads, and every key decodes. A function of the bytes
/// alone; exactly then a pull owes its serialized output.
pub uninterp spec fn store_readable(data: Seq<u8>) -> bool;

/// The keys of the settings store serialized in `data`, in the store's own
/// table order. Spoken of only through the trusted items below.
pub uninterp spec fn store_keys(data: Seq<u8>) -> Seq<Seq<u8>>;

/// The text form of the value stored under `key` in the store serialized in
/// `data`; nothing where the lookup fails for that key.
pub uninterp spec fn store_value(data: Seq<u8>, key: Seq<u8>) -> Option<Seq<u8>>;

/// Relies on gvdb::read::File::from_bytes: parses the store from the given
/// bytes alone, and cannot fail on a readable store. The cause text is
/// handed back on failure.
#[verifier::external_body]
pub fn open_store(data: &Vec<u8>) -> (r: Result<gvdb::read::File<'static>, String>)
    ensures
        r matches Ok(f) ==> file_data(f) == data@,
        r is Err ==> !store_readable(data@),
{
    match gvdb::read::File::from_bytes(std::borrow::Cow::Owned(data.clone())) {
        Ok(f) => Ok(f),
        Err(e) => Err(format!("{e}")),
    }
}

/// Relies on gvdb::read::File::hash_table and HashTable::keys: the keys of
/// the root table, in table order, each a function of the store's bytes
/// alone. A failure to read the table or to decode any one key fails the
/// whole enumeration, with the cause text — and exactly that is what a
/// readable store rules out.
#[verifier::external_body]
pub fn store_keys_of(f: &gvdb::read::File<'static>) -> (r: Result<Vec<Vec<u8>>, String>)
    ensures
        r matches Ok(ks) ==> ks@.map_values(|k: Vec<u8>| k@) == store_keys(file_data(*f)),
        r is Ok <==> store_readable(file_data(*f)),
{
    let table = match f.hash_table() {
        Ok(t) => t,
        Err(e) => return Err(format!("{e}")),
    };
    let mut out: Vec<Vec<u8>> = Vec::new();
    for key in table.keys() {
        match key {
            Ok(k) => out.push(k.into_bytes()),
            Err(e) => return Err(format!("{e}")),
        }
    }
    Ok(out)
}

/// Relies on gvdb::read::HashTable::get_value and on zvariant's text form
/// of the value: both depend on the store's bytes and the key alone. A key
/// whose value cannot be retrieved yields nothing. Asked only of a
/// readable store: the lookup walks an item's parent chain without a cycle
/// guard of its own, and only a store whose full key enumeration succeeded
/// (which walks every chain under such a guard) is known to have finite
/// chains, so the call is known to return.
#[verifier::external_body]
pub fn store_value_text(f: &gvdb::read::File<'static>, key: &Vec<u8>) -> (r: Option<Vec<u8>>)
    requires
        store_readable(file_data(*f)),
    ensures
        r matches Some(v) ==> store_value(file_data(*f), key@) == Some(v@),
        r is None ==> store_value(file_data(*f), key@) is None,
{
    let table = match f.hash_table() {
        Ok(t) => t,
        Err(_) => return None,
    };
    let key_str = match std::str::from_utf8(key) {
        Ok(s) => s,
        Err(_) => return None,
    };
    match table.get_value(key_str) {
        Ok(value) => Some(format!("{value}").into_bytes()),
        Err(_) => None,
    }
}

} // verus!
