use vstd::prelude::*;
use crate::error::ErrorCode;

verus! {

/// A field of a mint's token metadata.
#[derive(Debug, Clone, PartialEq, Eq)]
pub enum Field {
    /// The name field.
    Name,
    /// The symbol field.
    Symbol,
    /// The uri field.
    Uri,
    /// A user field, whose key is the string.
    Key(String),
}

/// Why a name, symbol and uri are refused, if they are: each must be non-empty, and
/// they are checked in that order.
pub open spec fn metadata_error(name: Seq<char>, symbol: Seq<char>, uri: Seq<char>) -> Option<
    ErrorCode,
> {
    if name.len() == 0 {
        Some(ErrorCode::InvalidName)
    } else if symbol.len() == 0 {
        Some(ErrorCode::InvalidSymbol)
    } else if uri.len() == 0 {
        Some(ErrorCode::InvalidUri)
    } else {
        None
    }
}

/// Checks the name, symbol and uri that a mint's metadata starts with.
pub fn validate_metadata(name: &String, symbol: &String, uri: &String) -> (r: Result<
    (),
    ErrorCode,
>)
    ensures
        r is Ok <==> metadata_error(name@, symbol@, uri@) is None,
        r matches Err(e) ==> metadata_error(name@, symbol@, uri@) == Some(e),
{
    if name.as_str().is_empty() {
        Err(ErrorCode::InvalidName)
    } else if symbol.as_str().is_empty() {
        Err(ErrorCode::InvalidSymbol)
    } else if uri.as_str().is_empty() {
        Err(ErrorCode::InvalidUri)
    } else {
        Ok(())
    }
}

/// The metadata record that a mint carries.
#[derive(Debug, Clone)]
pub struct MetadataRecord {
    pub name: String,
    pub symbol: String,
    pub uri: String,
    /// User fields, as (key, value) pairs, each key once.
    pub additional: Vec<(String, String)>,
}

/// Whether no pair of `a` before `end` has key `k`.
pub open spec fn key_absent_before(a: Seq<(String, String)>, k: Seq<char>, end: int) -> bool {
    forall|j: int| 0 <= j < end ==> (#[trigger] a[j]).0@ != k
}

/// Whether `after` is `before` with `field` set to `value`: every other field keeps its
/// value; a user field is replaced at the first pair with its key, or appended where
/// no pair has it.
pub open spec fn updated(before: MetadataRecord, field: Field, value: String, after: MetadataRecord) -> bool {
    let a = before.additional@;
    match field {
        Field::Name => after.name == value && after.symbol == before.symbol && after.uri == before.uri
            && after.additional@ == a,
        Field::Symbol => after.symbol == value && after.name == before.name && after.uri == before.uri
            && after.additional@ == a,
        Field::Uri => after.uri == value && after.name == before.name && after.symbol == before.symbol
            && after.additional@ == a,
        Field::Key(k) => after.name == before.name && after.symbol == before.symbol && after.uri
            == before.uri && ((exists|i: int|
            0 <= i < a.len() && a[i].0@ == k@ && key_absent_before(a, k@, i)
                && after.additional@ == a.update(i, (a[i].0, value))) || (key_absent_before(
            a,
            k@,
            a.len() as int,
        ) && after.additional@ == a.push((k, value)))),
    }
}

impl MetadataRecord {
    /// A record with the given name, symbol and uri, and no user fields.
    pub fn new(name: String, symbol: String, uri: String) -> (r: Result<MetadataRecord, ErrorCode>)
        ensures
            r is Ok <==> metadata_error(name@, symbol@, uri@) is None,
            r matches Err(e) ==> metadata_error(name@, symbol@, uri@) == Some(e),
            r matches Ok(m) ==> m.name == name && m.symbol == symbol && m.uri == uri
                && m.additional@.len() == 0,
    {
        match validate_metadata(&name, &symbol, &uri) {
            Err(e) => Err(e),
            Ok(()) => Ok(MetadataRecord { name, symbol, uri, additional: Vec::new() }),
        }
    }

    /// Sets one field to `value`; every other field keeps its value. A user field is
    /// replaced where its key is there, and appended where it is not.
    pub fn update_field(&mut self, field: Field, value: String)
        ensures
            updated(*old(self), field, value, *final(self)),
    {
        let ghost s0 = *self;
        let ghost f = field;
        let ghost v = value;
        match field {
            Field::Name => {
                self.name = value;
            },
            Field::Symbol => {
                self.symbol = value;
            },
            Field::Uri => {
                self.uri = value;
            },
            Field::Key(k) => {
                let ghost before = self.additional@;
                let mut i: usize = 0;
                while i < self.additional.len()
                    invariant
                        0 <= i <= self.additional.len(),
                        self.additional@ == before,
                        before == s0.additional@,
                        f == Field::Key(k),
                        v == value,
                        s0 == *old(self),
                        f == field,
                        self.name == s0.name,
                        self.symbol == s0.symbol,
                        self.uri == s0.uri,
                        key_absent_before(before, k@, i as int),
                    decreases self.additional.len() - i,
                {
                    if self.additional[i].0 == k {
                        let key = self.additional[i].0.clone();
                        self.additional.set(i, (key, value));
                        assert(self.additional@ == before.update(i as int, (before[i as int].0, value)));
                        assert(before[i as int].0@ == k@ && key_absent_before(before, k@, i as int));
                        assert(updated(s0, f, v, *self));
                        return;
                    }
                    i = i + 1;
                }
                self.additional.push((k, value));
            },
        }
    }
}

} // verus!
