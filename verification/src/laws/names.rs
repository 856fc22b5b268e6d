//! The bytes of the header names and media types, and what tells them
//! apart.

use crate::http::{
    CE_ID_HEADER, CE_PREFIX, CE_SOURCE_HEADER, CE_SPECVERSION_HEADER, CE_SUBJECT_HEADER,
    CE_TIME_HEADER, CE_TYPE_HEADER, CONTENT_TYPE_HEADER,
};
use crate::text::{ascii_chars, is_text, is_text_byte};
use vstd::prelude::*;
use vstd::utf8::*;

verus! {

/// Every character may stand in the text of a header value: it is
/// visible ASCII, a space or a tab.
pub open spec fn is_header_chars(s: Seq<char>) -> bool {
    forall|i: int| 0 <= i < s.len() ==> (#[trigger] s[i]) == '\t' || (' ' <= s[i] && s[i] <= '~')
}

/// The bytes of a text of ASCII characters are its characters, one byte
/// each.
pub proof fn lemma_ascii_bytes(s: Seq<char>)
    requires
        is_ascii_chars(s),
    ensures
        encode_utf8(s).len() == s.len(),
        forall|i: int| 0 <= i < s.len() ==> #[trigger] encode_utf8(s)[i] == s[i] as u8,
{
    is_ascii_chars_encode_utf8(s);
}

/// A text of header characters is written as header text, and read back
/// as itself.
pub proof fn lemma_header_text(s: Seq<char>)
    requires
        is_header_chars(s),
    ensures
        is_text(encode_utf8(s)),
        ascii_chars(encode_utf8(s)) == s,
{
    assert(is_ascii_chars(s));
    lemma_ascii_bytes(s);
    let bytes = encode_utf8(s);
    assert forall|i: int| 0 <= i < bytes.len() implies is_text_byte(#[trigger] bytes[i]) by {
        assert(bytes[i] == s[i] as u8);
        assert(s[i] == '\t' || (' ' <= s[i] && s[i] <= '~'));
    }
    assert forall|i: int| 0 <= i < s.len() implies ascii_chars(bytes)[i] == s[i] by {
        assert(bytes[i] == s[i] as u8);
        assert(s[i] == '\t' || (' ' <= s[i] && s[i] <= '~'));
    }
    assert(ascii_chars(bytes) =~= s);
}

/// The names of the six attribute headers, of the content type header and
/// of the prefix, byte by byte.
pub proof fn lemma_name_bytes()
    ensures
        encode_utf8(CE_ID_HEADER@) == seq![99u8, 101, 45, 105, 100],
        encode_utf8(CE_TYPE_HEADER@) == seq![99u8, 101, 45, 116, 121, 112, 101],
        encode_utf8(CE_SOURCE_HEADER@) == seq![99u8, 101, 45, 115, 111, 117, 114, 99, 101],
        encode_utf8(CE_SPECVERSION_HEADER@) == seq![
            99u8,
            101,
            45,
            115,
            112,
            101,
            99,
            118,
            101,
            114,
            115,
            105,
            111,
            110,
        ],
        encode_utf8(CE_SUBJECT_HEADER@) == seq![99u8, 101, 45, 115, 117, 98, 106, 101, 99, 116],
        encode_utf8(CE_TIME_HEADER@) == seq![99u8, 101, 45, 116, 105, 109, 101],
        encode_utf8(CE_PREFIX@) == seq![99u8, 101, 45],
        encode_utf8(CONTENT_TYPE_HEADER@) == seq![
            99u8,
            111,
            110,
            116,
            101,
            110,
            116,
            45,
            116,
            121,
            112,
            101,
        ],
{
    reveal_strlit("ce-id");
    reveal_strlit("ce-type");
    reveal_strlit("ce-source");
    reveal_strlit("ce-specversion");
    reveal_strlit("ce-subject");
    reveal_strlit("ce-time");
    reveal_strlit("ce-");
    reveal_strlit("content-type");
    lemma_ascii_bytes(CE_ID_HEADER@);
    lemma_ascii_bytes(CE_TYPE_HEADER@);
    lemma_ascii_bytes(CE_SOURCE_HEADER@);
    lemma_ascii_bytes(CE_SPECVERSION_HEADER@);
    lemma_ascii_bytes(CE_SUBJECT_HEADER@);
    lemma_ascii_bytes(CE_TIME_HEADER@);
    lemma_ascii_bytes(CE_PREFIX@);
    lemma_ascii_bytes(CONTENT_TYPE_HEADER@);
    assert(encode_utf8(CE_ID_HEADER@) =~= seq![99u8, 101, 45, 105, 100]);
    assert(encode_utf8(CE_TYPE_HEADER@) =~= seq![99u8, 101, 45, 116, 121, 112, 101]);
    assert(encode_utf8(CE_SOURCE_HEADER@) =~= seq![99u8, 101, 45, 115, 111, 117, 114, 99, 101]);
    assert(encode_utf8(CE_SPECVERSION_HEADER@) =~= seq![
        99u8,
        101,
        45,
        115,
        112,
        101,
        99,
        118,
        101,
        114,
        115,
        105,
        111,
        110,
    ]);
    assert(encode_utf8(CE_SUBJECT_HEADER@) =~= seq![99u8, 101, 45, 115, 117, 98, 106, 101, 99, 116]);
    assert(encode_utf8(CE_TIME_HEADER@) =~= seq![99u8, 101, 45, 116, 105, 109, 101]);
    assert(encode_utf8(CE_PREFIX@) =~= seq![99u8, 101, 45]);
    assert(encode_utf8(CONTENT_TYPE_HEADER@) =~= seq![
        99u8,
        111,
        110,
        116,
        101,
        110,
        116,
        45,
        116,
        121,
        112,
        101,
    ]);
}

} // verus!
