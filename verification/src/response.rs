//! The envelope that the service puts around every answer.

use vstd::prelude::*;
use crate::error::CurseError;
use crate::json::{members_new, no_members, value_doc, value_from_members, Doc};
use crate::fingerprint::CurseFingerPrint;
use crate::record::{
    from_text, member, object_of, read_as, read_required, required, with_member, write_member,
    Record,
};

verus! {

/// What a `CurseResponse` is: the payload's model, under `data`.
pub struct ResponseModel<M> {
    pub data: M,
}

/// An answer of the service: `{"data": ...}` around a payload of any record
/// type. The envelope asks of the payload only what reading and writing it
/// need.
#[derive(Clone, Debug, PartialEq, Eq)]
pub struct CurseResponse<T> {
    pub data: T,
}

impl<T: Record> Record for CurseResponse<T> {
    type Model = ResponseModel<T::Model>;

    open spec fn model(&self) -> ResponseModel<T::Model> {
        ResponseModel { data: self.data.model() }
    }

    /// An object with a payload under `data`.
    open spec fn decoded(doc: Doc) -> Option<ResponseModel<T::Model>> {
        match required::<T>(doc, "data"@) {
            Some(data) => Some(ResponseModel { data }),
            None => None,
        }
    }

    open spec fn encoded(m: ResponseModel<T::Model>) -> Option<Doc> {
        let ms = Some(no_members());
        let ms = with_member::<T>(ms, "data"@, m.data);
        object_of(ms)
    }

    fn from_value(v: &serde_json::Value) -> (r: Result<CurseResponse<T>, CurseError>) {
        let data = read_required::<T>(v, "data")?;
        Ok(CurseResponse { data })
    }

    fn to_value(&self) -> (r: Option<serde_json::Value>) {
        let ms = members_new();
        let ms = write_member(ms, "data", &self.data)?;
        Some(value_from_members(ms))
    }

    proof fn lemma_round_trip(m: ResponseModel<T::Model>) {
        T::lemma_round_trip(m.data);
    }
}

/// The payload of an answer in a document: the envelope taken off.
pub fn unwrap_value<T: Record>(v: &serde_json::Value) -> (r: Result<T, CurseError>)
    ensures
        match CurseResponse::<T>::decoded(value_doc(*v)) {
            Some(m) => r matches Ok(x) && x.model() == m.data,
            None => r matches Err(e) && e is Parse,
        },
{
    match CurseResponse::<T>::from_value(v) {
        Ok(response) => Ok(response.data),
        Err(e) => Err(e),
    }
}

/// The payload of an answer in JSON text: the envelope taken off. Fails with
/// `Parse` where the text is no JSON, has no envelope, or the payload has not
/// its type's shape, and never otherwise.
pub fn unwrap_response<T: Record>(text: &str) -> (r: Result<T, CurseError>)
    ensures
        match read_as::<CurseResponse<T>>(text@) {
            Some(m) => r matches Ok(x) && x.model() == m.data,
            None => r matches Err(e) && e is Parse,
        },
{
    match from_text::<CurseResponse<T>>(text) {
        Ok(response) => Ok(response.data),
        Err(e) => Err(e),
    }
}

/// An answer to a fingerprint lookup, once read, holds one match for each
/// item of the array under `exactMatches`: none is dropped and none is added.
pub proof fn lemma_lookup_keeps_every_match(doc: Doc, items: Seq<Doc>)
    requires
        member(doc, "data"@) matches Some(payload) && member(payload, "exactMatches"@) == Some(
            Doc::List(items),
        ),
    ensures
        CurseResponse::<CurseFingerPrint>::decoded(doc) matches Some(m)
            ==> m.data.exact_matches.len() == items.len(),
{
}

} // verus!
