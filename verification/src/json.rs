//! Emission of the pair collection as one line of JSON text.
//!
//! The encoding itself is done by serde_json; the library names its result
//! and proves everything around the call.

use vstd::prelude::*;

use crate::pairs::Pair;
use crate::pairs::map_of;
use crate::state::App;
use crate::AppError;

verus! {

/// The serde_json error type, declared so that the encoder's result can be
/// passed through.
#[verifier::external_type_specification]
#[verifier::external_body]
pub struct ExError(serde_json::Error);

/// The JSON text that encodes a key/value mapping.
pub uninterp spec fn json_of(m: Map<Seq<char>, Seq<char>>) -> Seq<char>;

/// Relies on `serde_json::to_string` over a `serde_json::Map` (an ordered
/// map keyed by the pair keys): the emitted text is a function of the
/// key/value mapping alone. The call succeeds: the encoder writes into a
/// byte vector, which cannot fail, and its two documented failure causes —
/// a failing `Serialize` impl, a map with non-string keys — are impossible
/// for a map from `String` to `Value::String`. The compact formatter
/// escapes control characters, so the text holds no raw newline: it is one
/// line.
#[verifier::external_body]
fn to_json_string(pairs: &Vec<Pair>) -> (r: Result<String, serde_json::Error>)
    ensures
        r is Ok,
        r matches Ok(s) ==> s@ == json_of(map_of(pairs@)),
        r matches Ok(s) ==> forall|i: int| 0 <= i < s@.len() ==> (#[trigger] s@[i]) != '\n',
{
    let mut m = serde_json::Map::new();
    for p in pairs.iter() {
        m.insert(p.key.clone(), serde_json::Value::String(p.value.clone()));
    }
    serde_json::to_string(&m)
}

impl App {
    /// The pair collection as one line of JSON text. A failure of the
    /// encoder would surface as `SerializationFailure`, but on a map of
    /// string pairs the encoder cannot fail, so the line is always
    /// returned, and it holds no newline.
    pub fn json_output(&self) -> (r: Result<String, AppError>)
        ensures
            r matches Ok(s) && s@ == json_of(self.pairs@),
            r matches Ok(s) ==> forall|i: int| 0 <= i < s@.len() ==> (#[trigger] s@[i]) != '\n',
    {
        match to_json_string(&self.pairs.list) {
            Ok(s) => Ok(s),
            Err(_) => Err(AppError::SerializationFailure),
        }
    }
}

} // verus!
