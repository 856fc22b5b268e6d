//! The version of CloudEvents that an event follows.

use crate::text::str_eq;
use vstd::prelude::*;
use vstd::std_specs::convert::TryFromSpecImpl;
use vstd::string::*;

verus! {

/// A supported version of CloudEvents.
#[derive(Clone, Copy, PartialEq, Eq, Debug, Structural)]
pub enum SpecVersion {
    V02,
    V03,
    V10,
}

impl SpecVersion {
    /// The token that stands for this version on the wire.
    pub open spec fn token(self) -> Seq<char> {
        match self {
            SpecVersion::V02 => "0.2"@,
            SpecVersion::V03 => "0.3"@,
            SpecVersion::V10 => "1.0"@,
        }
    }

    /// The version that a token stands for; only the three tokens are
    /// accepted, letter for letter.
    pub open spec fn parse(token: Seq<char>) -> Option<SpecVersion> {
        if token == "0.2"@ {
            Some(SpecVersion::V02)
        } else if token == "0.3"@ {
            Some(SpecVersion::V03)
        } else if token == "1.0"@ {
            Some(SpecVersion::V10)
        } else {
            None
        }
    }

    /// The text of the error that an unsupported token is rejected with.
    pub open spec fn rejection(token: Seq<char>) -> Seq<char> {
        "Invalid specversion "@ + token
    }

    /// The token of this version.
    pub fn as_str(&self) -> (r: &'static str)
        ensures
            r@ == self.token(),
    {
        match self {
            SpecVersion::V02 => "0.2",
            SpecVersion::V03 => "0.3",
            SpecVersion::V10 => "1.0",
        }
    }

    /// The token of this version, as an owned string.
    pub fn to_string(&self) -> (r: String)
        ensures
            r@ == self.token(),
    {
        String::from_str(self.as_str())
    }
}

impl TryFrom<String> for SpecVersion {
    type Error = String;

    /// Reads a version token. Any text but one of the three tokens is
    /// rejected, with a message that names it.
    fn try_from(value: String) -> (r: Result<SpecVersion, String>)
        ensures
            match SpecVersion::parse(value@) {
                Some(v) => r == Ok::<SpecVersion, String>(v),
                None => r matches Err(msg) && msg@ == SpecVersion::rejection(value@),
            },
    {
        if str_eq(value.as_str(), "0.2") {
            Ok(SpecVersion::V02)
        } else if str_eq(value.as_str(), "0.3") {
            Ok(SpecVersion::V03)
        } else if str_eq(value.as_str(), "1.0") {
            Ok(SpecVersion::V10)
        } else {
            Err(String::from_str("Invalid specversion ").concat(value.as_str()))
        }
    }
}

/// What `try_from` returns is stated on `try_from` itself: the message of
/// a rejection is a string of its own, which no value given here stands
/// for.
impl TryFromSpecImpl<String> for SpecVersion {
    open spec fn obeys_try_from_spec() -> bool {
        false
    }

    open spec fn try_from_spec(value: String) -> Result<SpecVersion, String> {
        match SpecVersion::parse(value@) {
            Some(v) => Ok(v),
            None => Err(value),
        }
    }
}

/// Every version is read back from its own token, and a token that is
/// read as a version is the token of that version.
pub proof fn lemma_version_round_trip(v: SpecVersion)
    ensures
        SpecVersion::parse(v.token()) == Some(v),
        forall|token: Seq<char>| SpecVersion::parse(token) == Some(v) ==> token == v.token(),
{
    reveal_strlit("0.2");
    reveal_strlit("0.3");
    reveal_strlit("1.0");
    assert("0.2"@[0] != "1.0"@[0]);
    assert("0.2"@[2] != "0.3"@[2]);
    assert("0.3"@[0] != "1.0"@[0]);
}

} // verus!
