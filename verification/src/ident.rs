//! Fresh identifiers.
//!
//! The identifier comes from uuid; what is said of its text is taken on trust.

use vstd::prelude::*;
use crate::text::is_lower_hex;

verus! {

/// Whether `text` has the form in which a random (version 4) UUID is written:
/// 32 hexadecimal digits in lower case, in groups of 8, 4, 4, 4 and 12 with a
/// hyphen between them, the third group beginning with `4` and the fourth with
/// one of `8`, `9`, `a`, `b`.
pub open spec fn is_uuid_text(text: Seq<char>) -> bool {
    &&& text.len() == 36
    &&& forall|i: int|
        0 <= i < 36 ==> if i == 8 || i == 13 || i == 18 || i == 23 {
            text[i] == '-'
        } else {
            is_lower_hex(#[trigger] text[i])
        }
    &&& text[14] == '4'
    &&& (text[19] == '8' || text[19] == '9' || text[19] == 'a' || text[19] == 'b')
}

/// `Uuid::new_v4` of uuid, written out with `to_string`. The bits come from the
/// operating system, so nothing is said of which identifier it is: only that
/// its text has the hyphenated lower-case form, with the version and variant
/// digits that `new_v4` sets.
#[verifier::external_body]
pub(crate) fn new_uuid_text() -> (text: String)
    ensures
        is_uuid_text(text@),
{
    uuid::Uuid::new_v4().to_string()
}

} // verus!
