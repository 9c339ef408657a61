use vstd::prelude::*;

use crate::model::StageId;

verus! {

/// Value of a hexadecimal digit of either case, or -1 for any other character.
pub open spec fn hex_digit_value(c: char) -> int {
    let n = c as u32;
    if 48 <= n <= 57 {
        n - 48
    } else if 97 <= n <= 102 {
        n - 87
    } else if 65 <= n <= 70 {
        n - 55
    } else {
        -1
    }
}

/// The text form of a stage identifier: exactly 24 hexadecimal digits.
pub open spec fn is_stage_id_text(s: Seq<char>) -> bool {
    s.len() == 24 && forall|i: int| 0 <= i < 24 ==> hex_digit_value(#[trigger] s[i]) >= 0
}

/// The twelve bytes that a text form stands for, two digits per byte, the more
/// significant digit first.
pub open spec fn stage_id_bytes(s: Seq<char>) -> Seq<u8> {
    Seq::new(12, |k: int| (16 * hex_digit_value(s[2 * k]) + hex_digit_value(s[2 * k + 1])) as u8)
}

#[verifier::external_type_specification]
#[verifier::external_body]
pub struct ExObjectIdError(mongodb::bson::oid::Error);

/// Relies on `bson::oid::ObjectId::parse_str` (re-exported by mongodb): it
/// accepts exactly 24 hexadecimal digits of either case and reads each pair of
/// digits as one byte, the first digit the more significant.
#[verifier::external_body]
fn parse_object_id(text: &str) -> (r: Result<[u8; 12], mongodb::bson::oid::Error>)
    ensures
        r is Ok <==> is_stage_id_text(text@),
        r matches Ok(b) ==> b@ == stage_id_bytes(text@),
{
    mongodb::bson::oid::ObjectId::parse_str(text).map(|id| id.bytes())
}

/// Relies on the `Display` impl of `bson::oid::Error` for a readable message.
#[verifier::external_body]
fn object_id_error_message(e: &mongodb::bson::oid::Error) -> String {
    e.to_string()
}

/// Reads the text form of a stage identifier; any other text is refused with a
/// message that describes it.
pub fn parse_stage_id(text: &str) -> (r: Result<StageId, String>)
    ensures
        r is Ok <==> is_stage_id_text(text@),
        r matches Ok(id) ==> id@ == stage_id_bytes(text@),
{
    match parse_object_id(text) {
        Ok(bytes) => Ok(StageId { bytes }),
        Err(e) => Err(object_id_error_message(&e)),
    }
}

} // verus!
