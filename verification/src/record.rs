//! Reading typed records out of JSON documents, and writing them back.

use vstd::prelude::*;
use crate::error::{missing_member, shape_fault, under_key, CurseError};
use crate::json::{
    document_text, error_message, members_doc, members_insert, parse_value, parsed_document,
    value_as_array, value_as_str, value_as_u64, value_doc, value_from_array, value_from_string,
    value_from_u64, value_get, value_is_null, value_null, value_to_text, Doc, Numeral,
};
use vstd::string::StringExecFns;

verus! {

/// A type with a fixed JSON shape.
///
/// `decoded` says which documents have the shape and what each holds;
/// `encoded` says which document stands for a value. Reading back what was
/// written gives the value again.
pub trait Record: Sized {
    /// What a value of the type is, mathematically.
    type Model;

    /// The model of a value.
    spec fn model(&self) -> Self::Model;

    /// What a document holds when read as this type; `None` where the
    /// document has not the type's shape.
    spec fn decoded(doc: Doc) -> Option<Self::Model>;

    /// The document that stands for a value; `None` where the value has none.
    spec fn encoded(m: Self::Model) -> Option<Doc>;

    /// Reads a value out of a document.
    fn from_value(v: &serde_json::Value) -> (r: Result<Self, CurseError>)
        ensures
            match Self::decoded(value_doc(*v)) {
                Some(m) => r matches Ok(x) && x.model() == m,
                None => r matches Err(e) && e is Parse,
            },
    ;

    /// Writes a value as a document.
    fn to_value(&self) -> (r: Option<serde_json::Value>)
        ensures
            match Self::encoded(self.model()) {
                Some(d) => r matches Some(v) && value_doc(v) == d,
                None => r is None,
            },
    ;

    /// A value that has a document is read back from it unchanged.
    proof fn lemma_round_trip(m: Self::Model)
        ensures
            Self::encoded(m) matches Some(d) ==> Self::decoded(d) == Some(m),
    ;
}

impl Record for usize {
    type Model = usize;

    open spec fn model(&self) -> usize {
        *self
    }

    /// A non-negative integer that fits the machine's word.
    open spec fn decoded(doc: Doc) -> Option<usize> {
        match doc {
            Doc::Number(Numeral::Uint(n)) if n <= usize::MAX => Some(n as usize),
            _ => None,
        }
    }

    open spec fn encoded(m: usize) -> Option<Doc> {
        Some(Doc::Number(Numeral::Uint(m as u64)))
    }

    fn from_value(v: &serde_json::Value) -> (r: Result<usize, CurseError>) {
        match value_as_u64(v) {
            Some(n) => {
                if n <= usize::MAX as u64 {
                    Ok(n as usize)
                } else {
                    Err(shape_fault("the number is too large for this machine"))
                }
            },
            None => Err(shape_fault("expected a non-negative integer")),
        }
    }

    fn to_value(&self) -> (r: Option<serde_json::Value>) {
        Some(value_from_u64(*self as u64))
    }

    proof fn lemma_round_trip(m: usize) {
    }
}

impl Record for String {
    type Model = Seq<char>;

    open spec fn model(&self) -> Seq<char> {
        self@
    }

    open spec fn decoded(doc: Doc) -> Option<Seq<char>> {
        match doc {
            Doc::Text(t) => Some(t),
            _ => None,
        }
    }

    open spec fn encoded(m: Seq<char>) -> Option<Doc> {
        Some(Doc::Text(m))
    }

    fn from_value(v: &serde_json::Value) -> (r: Result<String, CurseError>) {
        match value_as_str(v) {
            Some(s) => Ok(s.to_owned()),
            None => Err(shape_fault("expected a string")),
        }
    }

    fn to_value(&self) -> (r: Option<serde_json::Value>) {
        Some(value_from_string(self.clone()))
    }

    proof fn lemma_round_trip(m: Seq<char>) {
    }
}

impl<T: Record> Record for Vec<T> {
    type Model = Seq<T::Model>;

    open spec fn model(&self) -> Seq<T::Model> {
        Seq::new(self@.len(), |i: int| self@[i].model())
    }

    /// An array whose every item has the items' shape; the items keep their
    /// order.
    open spec fn decoded(doc: Doc) -> Option<Seq<T::Model>> {
        match doc {
            Doc::List(items) => if forall|i: int|
                0 <= i < items.len() ==> (#[trigger] T::decoded(items[i])) is Some {
                Some(Seq::new(items.len(), |i: int| T::decoded(items[i]).unwrap()))
            } else {
                None
            },
            _ => None,
        }
    }

    open spec fn encoded(m: Seq<T::Model>) -> Option<Doc> {
        if forall|i: int| 0 <= i < m.len() ==> (#[trigger] T::encoded(m[i])) is Some {
            Some(Doc::List(Seq::new(m.len(), |i: int| T::encoded(m[i]).unwrap())))
        } else {
            None
        }
    }

    fn from_value(v: &serde_json::Value) -> (r: Result<Vec<T>, CurseError>) {
        match value_as_array(v) {
            None => Err(shape_fault("expected an array")),
            Some(a) => {
                let ghost items = value_doc(*v)->List_0;
                let mut out: Vec<T> = Vec::new();
                let mut i: usize = 0;
                while i < a.len()
                    invariant
                        i <= a.len(),
                        out@.len() == i,
                        value_doc(*v) == Doc::List(items),
                        a@.len() == items.len(),
                        forall|j: int| 0 <= j < items.len() ==> value_doc(#[trigger] a@[j]) == items[j],
                        forall|j: int|
                            0 <= j < i ==> T::decoded(items[j]) == Some(#[trigger] out@[j].model()),
                    decreases a.len() - i,
                {
                    match T::from_value(&a[i]) {
                        Ok(x) => {
                            out.push(x);
                        },
                        Err(e) => {
                            assert(T::decoded(items[i as int]) is None);
                            return Err(e);
                        },
                    }
                    i = i + 1;
                }
                proof {
                    assert forall|j: int| 0 <= j < items.len() implies (#[trigger] T::decoded(
                        items[j],
                    )) == Some(out@[j].model()) by {}
                    assert(out.model() =~= Self::decoded(value_doc(*v)).unwrap());
                }
                Ok(out)
            },
        }
    }

    fn to_value(&self) -> (r: Option<serde_json::Value>) {
        let ghost m = self.model();
        let mut out: Vec<serde_json::Value> = Vec::new();
        let mut i: usize = 0;
        while i < self.len()
            invariant
                i <= self.len(),
                out@.len() == i,
                m == self.model(),
                forall|j: int| 0 <= j < i ==> T::encoded(m[j]) == Some(value_doc(#[trigger] out@[j])),
            decreases self.len() - i,
        {
            match self[i].to_value() {
                Some(x) => {
                    out.push(x);
                },
                None => {
                    assert(T::encoded(m[i as int]) is None);
                    return None;
                },
            }
            i = i + 1;
        }
        let r = value_from_array(out);
        proof {
            let docs = value_doc(r)->List_0;
            assert forall|j: int| 0 <= j < m.len() implies (#[trigger] T::encoded(m[j])) == Some(
                docs[j],
            ) by {
                assert(T::encoded(m[j]) == Some(value_doc(out@[j])));
            }
            assert(docs =~= Self::encoded(m).unwrap()->List_0);
        }
        Some(r)
    }

    proof fn lemma_round_trip(m: Seq<T::Model>) {
        if Self::encoded(m) is Some {
            let d = Self::encoded(m).unwrap();
            let items = d->List_0;
            assert forall|i: int| 0 <= i < items.len() implies (#[trigger] T::decoded(
                items[i],
            )) == Some(m[i]) by {
                T::lemma_round_trip(m[i]);
            }
            assert(Self::decoded(d).unwrap() =~= m);
        }
    }
}

/// The member of an object under a key; `None` where the document is no
/// object or has no such key.
pub open spec fn member(doc: Doc, key: Seq<char>) -> Option<Doc> {
    match doc {
        Doc::Object(m) if m.contains_key(key) => Some(m[key]),
        _ => None,
    }
}

/// A member that the shape demands: it is there and has its type's shape.
pub open spec fn required<T: Record>(doc: Doc, key: Seq<char>) -> Option<T::Model> {
    match member(doc, key) {
        Some(d) => T::decoded(d),
        None => None,
    }
}

/// A member that may be left out: absent and `null` both read as `None`;
/// anything else must have its type's shape.
pub open spec fn optional<T: Record>(doc: Doc, key: Seq<char>) -> Option<Option<T::Model>> {
    match member(doc, key) {
        None => Some(None),
        Some(Doc::Null) => Some(None),
        Some(d) => match T::decoded(d) {
            Some(m) => Some(Some(m)),
            None => None,
        },
    }
}

/// Reads a member that the shape demands.
pub fn read_required<T: Record>(v: &serde_json::Value, key: &str) -> (r: Result<T, CurseError>)
    ensures
        match required::<T>(value_doc(*v), key@) {
            Some(m) => r matches Ok(x) && x.model() == m,
            None => r matches Err(e) && e is Parse,
        },
{
    match value_get(v, key) {
        Some(item) => match T::from_value(item) {
            Ok(x) => Ok(x),
            Err(e) => Err(under_key(e, key)),
        },
        None => Err(missing_member(key)),
    }
}

/// Reads a member that may be left out.
pub fn read_optional<T: Record>(v: &serde_json::Value, key: &str) -> (r: Result<
    Option<T>,
    CurseError,
>)
    ensures
        match optional::<T>(value_doc(*v), key@) {
            Some(Some(m)) => r matches Ok(Some(x)) && x.model() == m,
            Some(None) => r matches Ok(None),
            None => r matches Err(e) && e is Parse,
        },
{
    match value_get(v, key) {
        None => Ok(None),
        Some(item) => {
            if value_is_null(item) {
                Ok(None)
            } else {
                match T::from_value(item) {
                    Ok(x) => Ok(Some(x)),
                    Err(e) => Err(under_key(e, key)),
                }
            }
        },
    }
}

/// The members of an object with one more, which stands for a value of a
/// record type; `None` where the members or the value's document are missing.
pub open spec fn with_member<T: Record>(
    members: Option<Map<Seq<char>, Doc>>,
    key: Seq<char>,
    m: T::Model,
) -> Option<Map<Seq<char>, Doc>> {
    match (members, T::encoded(m)) {
        (Some(ms), Some(d)) => Some(ms.insert(key, d)),
        _ => None,
    }
}

/// The members of an object with one more, which may be left out: `None` is
/// written as `null`.
pub open spec fn with_optional<T: Record>(
    members: Option<Map<Seq<char>, Doc>>,
    key: Seq<char>,
    m: Option<T::Model>,
) -> Option<Map<Seq<char>, Doc>> {
    match m {
        Some(x) => with_member::<T>(members, key, x),
        None => match members {
            Some(ms) => Some(ms.insert(key, Doc::Null)),
            None => None,
        },
    }
}

/// The object of the given members.
pub open spec fn object_of(members: Option<Map<Seq<char>, Doc>>) -> Option<Doc> {
    match members {
        Some(ms) => Some(Doc::Object(ms)),
        None => None,
    }
}

/// Writes one member into an object under construction.
pub fn write_member<T: Record>(
    members: serde_json::Map<String, serde_json::Value>,
    key: &str,
    x: &T,
) -> (r: Option<serde_json::Map<String, serde_json::Value>>)
    ensures
        match with_member::<T>(Some(members_doc(members)), key@, x.model()) {
            Some(ms) => r matches Some(out) && members_doc(out) == ms,
            None => r is None,
        },
{
    match x.to_value() {
        Some(item) => {
            let mut out = members;
            members_insert(&mut out, String::from_str(key), item);
            Some(out)
        },
        None => None,
    }
}

/// Writes one member that may be left out into an object under construction.
pub fn write_optional<T: Record>(
    members: serde_json::Map<String, serde_json::Value>,
    key: &str,
    x: &Option<T>,
) -> (r: Option<serde_json::Map<String, serde_json::Value>>)
    ensures
        match with_optional::<T>(
            Some(members_doc(members)),
            key@,
            match x {
                Some(y) => Some(y.model()),
                None => None,
            },
        ) {
            Some(ms) => r matches Some(out) && members_doc(out) == ms,
            None => r is None,
        },
{
    match x {
        Some(y) => write_member(members, key, y),
        None => {
            let mut out = members;
            members_insert(&mut out, String::from_str(key), value_null());
            Some(out)
        },
    }
}

/// What a text holds when read as a record type: the text is JSON and its
/// document has the type's shape.
pub open spec fn read_as<T: Record>(text: Seq<char>) -> Option<T::Model> {
    match parsed_document(text) {
        Some(doc) => T::decoded(doc),
        None => None,
    }
}

/// Reads a record from JSON text. Fails with `Parse` where the text is no JSON
/// or its document has not the type's shape, and never otherwise.
pub fn from_text<T: Record>(text: &str) -> (r: Result<T, CurseError>)
    ensures
        match read_as::<T>(text@) {
            Some(m) => r matches Ok(x) && x.model() == m,
            None => r matches Err(e) && e is Parse,
        },
{
    match parse_value(text) {
        Ok(v) => T::from_value(&v),
        Err(e) => Err(CurseError::Parse(error_message(&e))),
    }
}

/// Wherever `serde_json` reads back the document whose text it wrote, the
/// text written for a value reads back as that value.
pub proof fn lemma_text_round_trip<T: Record>(m: T::Model)
    ensures
        T::encoded(m) matches Some(d) ==> (parsed_document(document_text(d)) == Some(d)
            ==> read_as::<T>(document_text(d)) == Some(m)),
{
    T::lemma_round_trip(m);
}

/// Writes a record as compact JSON text; `None` where the value has no
/// document.
pub fn to_text<T: Record>(x: &T) -> (r: Option<String>)
    ensures
        match T::encoded(x.model()) {
            Some(d) => r matches Some(s) && s@ == document_text(d),
            None => r is None,
        },
{
    match x.to_value() {
        Some(v) => Some(value_to_text(&v)),
        None => None,
    }
}

} // verus!
