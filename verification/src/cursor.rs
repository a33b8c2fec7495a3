use vstd::prelude::*;
use crate::encoding::{
    base64_decode, base64_encode, base64_standard_decoding, base64_standard_encoding, utf8_text,
};
use crate::error::AppError;
use crate::time::{
    format_rfc3339, in_rfc3339_range, parse_rfc3339, representable, rfc3339_instant, rfc3339_text,
    Timestamp,
};

verus! {

broadcast use vstd::utf8::group_utf8_lib;

/// The text of the cursor that stands for an instant: the RFC 3339 text of
/// the instant, as UTF-8 bytes, in standard padded base64.
pub open spec fn cursor_text(t: (i64, u32)) -> Seq<char> {
    base64_standard_encoding(vstd::utf8::encode_utf8(rfc3339_text(t.0, t.1)))
}

/// The instant that a cursor stands for: base64-decode it, read the bytes as
/// UTF-8, parse the text as RFC 3339. `None` where any step fails.
pub open spec fn cursor_instant(cursor: Seq<char>) -> Option<(i64, u32)> {
    match base64_standard_decoding(cursor) {
        Some(bytes) => if vstd::utf8::valid_utf8(bytes) {
            rfc3339_instant(vstd::utf8::decode_utf8(bytes))
        } else {
            None
        },
        None => None,
    }
}

/// Encodes the creation time of the last item of a page as the cursor of
/// the next page. No other instant has the same cursor, and for instants of
/// years 0 to 9999 without a leap second, decoding the cursor gives back the
/// same instant.
pub fn encode_cursor(created_at: Timestamp) -> (cursor: String)
    ensures
        cursor@ == cursor_text(created_at@),
        forall|t: (i64, u32)| representable(t.0, t.1) && #[trigger] cursor_text(t) == cursor@ ==> t == created_at@,
        in_rfc3339_range(created_at@) ==> cursor_instant(cursor@) == Some(created_at@),
{
    let secs = created_at.secs();
    let nanos = created_at.nanos();
    let text = format_rfc3339(secs, nanos);
    let encoded = base64_encode(text.as_str().as_bytes());
    proof {
        vstd::utf8::encode_utf8_valid_utf8(text@);
        vstd::utf8::encode_utf8_decode_utf8(text@);
        assert forall|t: (i64, u32)| representable(t.0, t.1) && #[trigger] cursor_text(t) == encoded@ implies t
            == created_at@ by {
            let other = rfc3339_text(t.0, t.1);
            assert(vstd::utf8::encode_utf8(other) == vstd::utf8::encode_utf8(text@));
            vstd::utf8::encode_utf8_decode_utf8(other);
            assert(other == text@);
        }
    }
    encoded
}

/// Reads a cursor back into the instant it stands for. Every failure (not
/// base64, not UTF-8, not an RFC 3339 date-time) is a bad request with an
/// empty message.
pub fn decode_cursor(cursor: &str) -> (r: Result<Timestamp, AppError>)
    ensures
        match r {
            Ok(t) => cursor_instant(cursor@) == Some(t@),
            Err(e) => {
                &&& cursor_instant(cursor@) is None
                &&& e matches AppError::BadRequest(m) && m@ == Seq::<char>::empty()
            },
        },
{
    let bytes = match base64_decode(cursor) {
        Some(b) => b,
        None => return Err(AppError::bad_request_empty()),
    };
    let text = match utf8_text(bytes) {
        Some(t) => t,
        None => return Err(AppError::bad_request_empty()),
    };
    match parse_rfc3339(text.as_str()) {
        Some((secs, nanos)) => match Timestamp::new(secs, nanos) {
            Some(t) => Ok(t),
            None => Err(AppError::bad_request_empty()),
        },
        None => Err(AppError::bad_request_empty()),
    }
}

} // verus!
