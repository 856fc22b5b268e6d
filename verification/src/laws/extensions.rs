//! The names of extension attributes never are the names of attributes.

use crate::codec::{extensions_of, is_reserved, Members};
use crate::http::headers::HeaderList;
use crate::http::reader::{
    extension_headers, extension_key, is_attribute_header, is_extension_header,
};
use crate::http::{
    CE_ID_HEADER, CE_PREFIX, CE_SOURCE_HEADER, CE_SPECVERSION_HEADER, CE_SUBJECT_HEADER,
    CE_TIME_HEADER, CE_TYPE_HEADER,
};
use crate::laws::names::lemma_name_bytes;
use crate::text::{ascii_chars, has_prefix_ignore_case, lower};
use vstd::prelude::*;
use vstd::utf8::*;

verus! {

/// The names of the six attributes that have a header of their own.
pub open spec fn is_attribute_name(name: Seq<char>) -> bool {
    name == "id"@ || name == "type"@ || name == "source"@ || name == "specversion"@ || name
        == "subject"@ || name == "time"@
}

/// The extension attributes that are read from a document have no
/// reserved name.
pub proof fn law_document_extensions_are_not_reserved(members: Members)
    ensures
        extensions_of(members) matches Ok(map) ==> forall|name: Seq<char>|
            map.contains_key(name) ==> !is_reserved(name),
    decreases members.len(),
{
    if members.len() > 0 {
        law_document_extensions_are_not_reserved(members.drop_last());
    }
}

/// A header with the prefix whose name without the prefix is the name of
/// an attribute is the header of that attribute.
proof fn lemma_key_is_attribute(name: Seq<u8>)
    requires
        has_prefix_ignore_case(name, encode_utf8(CE_PREFIX@)),
        is_attribute_name(ascii_chars(extension_key(name))),
    ensures
        is_attribute_header(name),
{
    lemma_name_bytes();
    reveal_strlit("id");
    reveal_strlit("type");
    reveal_strlit("source");
    reveal_strlit("specversion");
    reveal_strlit("subject");
    reveal_strlit("time");
    let prefix = encode_utf8(CE_PREFIX@);
    let key = extension_key(name);
    let attribute = ascii_chars(key);
    let lowered = lower(name);
    assert(lower(name.subrange(0, 3)) == lower(prefix));
    assert forall|i: int| 0 <= i < 3 implies lowered[i] == prefix[i] by {
        assert(lower(name.subrange(0, 3))[i] == lower(prefix)[i]);
    }
    assert forall|i: int| 0 <= i < key.len() implies lowered[i + 3] as char == attribute[i] by {
        assert(key[i] == lowered[i + 3]);
    }
    assert(lowered.len() == 3 + attribute.len());
    let header = if attribute == "id"@ {
        encode_utf8(CE_ID_HEADER@)
    } else if attribute == "type"@ {
        encode_utf8(CE_TYPE_HEADER@)
    } else if attribute == "source"@ {
        encode_utf8(CE_SOURCE_HEADER@)
    } else if attribute == "specversion"@ {
        encode_utf8(CE_SPECVERSION_HEADER@)
    } else if attribute == "subject"@ {
        encode_utf8(CE_SUBJECT_HEADER@)
    } else {
        encode_utf8(CE_TIME_HEADER@)
    };
    assert(lower(header).len() == lowered.len());
    assert forall|i: int| 0 <= i < lowered.len() implies lowered[i] == lower(header)[i] by {
        if i >= 3 {
            assert(lowered[i] as char == attribute[i - 3]);
        }
    }
    assert(lowered =~= lower(header));
}

/// The extension attributes that are read from headers do not have the
/// name of one of the six attributes.
pub proof fn law_header_extensions_are_not_attributes(list: HeaderList)
    ensures
        extension_headers(list) matches Ok(map) ==> forall|name: Seq<char>|
            map.contains_key(name) ==> !is_attribute_name(name),
    decreases list.len(),
{
    if list.len() > 0 {
        law_header_extensions_are_not_attributes(list.drop_last());
        let name = list.last().0;
        if is_extension_header(name) && is_attribute_name(ascii_chars(extension_key(name))) {
            lemma_key_is_attribute(name);
        }
    }
}

} // verus!
