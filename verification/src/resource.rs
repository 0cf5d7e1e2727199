//! The closed set of resource-type tags and its canonical string form.
//!
//! A `ResourceType` is constructed fresh per request by parsing a URL path
//! segment; parsing succeeds exactly on the two declared variant names, with
//! the same casing used when rendering the tag back to text.

use vstd::prelude::*;
use vstd::string::*;

verus! {

/// A closed, two-valued tag identifying a kind of domain entity.
#[derive(Clone, Copy, Debug, PartialEq, Eq, Structural)]
pub enum ResourceType {
    Type1,
    Type2,
}

/// Why a path segment was rejected: it matched no declared variant name.
#[derive(Clone, Copy, Debug, PartialEq, Eq, Structural)]
pub enum ParseError {
    NoMatchingVariant,
}

/// The canonical text of a tag: exactly its declared variant name.
pub open spec fn name_of(t: ResourceType) -> Seq<char> {
    match t {
        ResourceType::Type1 => "Type1"@,
        ResourceType::Type2 => "Type2"@,
    }
}

/// Whether `s` is one of the two declared variant names.
pub open spec fn is_variant_name(s: Seq<char>) -> bool {
    s == name_of(ResourceType::Type1) || s == name_of(ResourceType::Type2)
}

/// The tag a string parses to, if any: exactly the variant whose name it is.
pub open spec fn spec_parse(s: Seq<char>) -> Option<ResourceType> {
    if s == name_of(ResourceType::Type1) {
        Some(ResourceType::Type1)
    } else if s == name_of(ResourceType::Type2) {
        Some(ResourceType::Type2)
    } else {
        None
    }
}

/// Character-by-character string equality, so that exec code can compare a
/// path segment against a variant name.
fn str_eq(a: &str, b: &str) -> (r: bool)
    ensures
        r == (a@ == b@),
{
    let a_len = a.unicode_len();
    let b_len = b.unicode_len();
    if a_len != b_len {
        return false;
    }
    let mut i: usize = 0;
    while i < a_len
        invariant
            i <= a_len,
            a_len == a@.len(),
            a_len == b@.len(),
            forall|j: int| 0 <= j < i ==> a@[j] == b@[j],
        decreases a_len - i,
    {
        if a.get_char(i) != b.get_char(i) {
            return false;
        }
        i = i + 1;
    }
    proof {
        assert(a@ =~= b@);
    }
    true
}

/// Parse a path segment into a tag. Succeeds if and only if the segment is
/// exactly one of the two variant names, matched case-sensitively.
pub fn parse(s: &str) -> (r: Result<ResourceType, ParseError>)
    ensures
        r is Ok <==> is_variant_name(s@),
        r matches Ok(t) ==> spec_parse(s@) == Some(t),
        r matches Err(e) ==> e == ParseError::NoMatchingVariant,
{
    if str_eq(s, "Type1") {
        Ok(ResourceType::Type1)
    } else if str_eq(s, "Type2") {
        Ok(ResourceType::Type2)
    } else {
        Err(ParseError::NoMatchingVariant)
    }
}

impl ResourceType {
    /// Render the tag as display text: its canonical name, with no
    /// decoration (no surrounding quotes, no type prefix).
    pub fn display(&self) -> (r: String)
        ensures
            r@ == name_of(*self),
    {
        match self {
            ResourceType::Type1 => String::from_str("Type1"),
            ResourceType::Type2 => String::from_str("Type2"),
        }
    }
}

/// The two variant names differ, so the canonical text determines the tag.
pub proof fn lemma_name_of_injective(a: ResourceType, b: ResourceType)
    requires
        name_of(a) == name_of(b),
    ensures
        a == b,
{
    reveal_strlit("Type1");
    reveal_strlit("Type2");
    assert(name_of(ResourceType::Type1)[4] != name_of(ResourceType::Type2)[4]);
}

/// Round-trip identity: every valid variant name parses to a tag whose
/// display text is that very name.
pub proof fn lemma_parse_display_round_trip(s: Seq<char>)
    requires
        is_variant_name(s),
    ensures
        spec_parse(s) matches Some(t) && name_of(t) == s,
{
}

} // verus!
