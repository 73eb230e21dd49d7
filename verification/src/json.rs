//! Decoding of backend list responses.
//!
//! The remote management API answers list queries with a JSON body of shape
//! `{"data": [{"attributes": {"id": .., "username"|"name": ..}}, ..]}`.
//! The decode is delegated to serde_json behind one trusted wrapper, and its
//! result carries a name, [`id_name_list_of`], so that every contract
//! downstream can say exactly which list a response decodes to and pin the
//! match that resolution must return.

use vstd::prelude::*;

verus! {

/// The id/name list that a list-response body decodes to: the JSON document
/// of the bytes must hold a `data` array whose every element carries a
/// numeric id (fitting the identifier type) and a string under
/// `name_pointer`; absent when the bytes are not such a document.  The
/// decode is a function of the bytes and the pointer alone.
pub uninterp spec fn id_name_list_of(bytes: Seq<u8>, name_pointer: Seq<char>) -> Option<
    Seq<(u32, Seq<char>)>,
>;

/// Relies on serde_json::from_slice and serde_json::Value's pointer,
/// as_array, as_u64 and as_str: parses the bytes as one JSON document and
/// walks its `data` array, pulling each entry's id together with the string
/// under `name_pointer`.  Every step is total: the parse returns an error
/// on arbitrary bytes and each lookup returns an option, so no input
/// panics.
#[verifier::external_body]
pub(crate) fn decode_id_name_list(bytes: &[u8], name_pointer: &str) -> (r: Option<
    Vec<(u32, String)>,
>)
    ensures
        (r is Some) == (id_name_list_of(bytes@, name_pointer@) is Some),
        r matches Some(v) ==> {
            let s = id_name_list_of(bytes@, name_pointer@)->Some_0;
            &&& v@.len() == s.len()
            &&& forall|i: int| 0 <= i < s.len() ==> v@[i].0 == s[i].0 && v@[i].1@ == s[i].1
        },
{
    let document: serde_json::Value = serde_json::from_slice(bytes).ok()?;
    let entries = document.pointer("/data")?.as_array()?;
    let mut out = Vec::new();
    for item in entries {
        let id = item.pointer("/attributes/id")?.as_u64()?;
        let name = item.pointer(name_pointer)?.as_str()?;
        if id > u32::MAX as u64 {
            return None;
        }
        out.push((id as u32, name.to_owned()));
    }
    Some(out)
}

} // verus!
