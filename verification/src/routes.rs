//! The three greeting routes: their pure handlers, and the binding step that
//! turns raw path segments into a response.
//!
//! Each handler is a pure function of its bound parameters. The route
//! functions compose the binder with a handler: a segment that is no variant
//! name never reaches a handler and yields a client-error response instead.

use vstd::prelude::*;
use vstd::string::*;

use crate::resource::{is_variant_name, name_of, parse, spec_parse, ResourceType};

verus! {

/// A compound path binding: a resource-type tag together with an arbitrary
/// identifier taken verbatim from its path segment.
pub struct PathStruct {
    pub resource_type: ResourceType,
    pub id: String,
}

/// The mathematical value of a `PathStruct`: the tag and the identifier text.
pub ghost struct PathStructView {
    pub resource_type: ResourceType,
    pub id: Seq<char>,
}

impl View for PathStruct {
    type V = PathStructView;

    open spec fn view(&self) -> PathStructView {
        PathStructView { resource_type: self.resource_type, id: self.id@ }
    }
}

/// What a route answers: an HTTP status code and a response body.
pub struct Response {
    pub status: u16,
    pub body: String,
}

/// The mathematical value of a `Response`.
pub ghost struct ResponseView {
    pub status: u16,
    pub body: Seq<char>,
}

impl View for Response {
    type V = ResponseView;

    open spec fn view(&self) -> ResponseView {
        ResponseView { status: self.status, body: self.body@ }
    }
}

/// The greeting for a single bound tag.
pub open spec fn one_param_greeting(t: ResourceType) -> Seq<char> {
    "Hello, World! "@ + name_of(t)
}

/// The greeting for a tag and an identifier bound as two separate segments.
pub open spec fn two_params_greeting(t: ResourceType, id: Seq<char>) -> Seq<char> {
    "Hello, World! "@ + name_of(t) + " "@ + id
}

/// The greeting for a compound path binding.
pub open spec fn struc_greeting(p: PathStructView) -> Seq<char> {
    "Hello, World! "@ + name_of(p.resource_type) + " "@ + p.id
}

/// Handler for the single-segment route: greet the bound tag.
pub fn test_1param(resource_type: ResourceType) -> (r: String)
    ensures
        r@ == one_param_greeting(resource_type),
{
    let mut s = String::from_str("Hello, World! ");
    let name = resource_type.display();
    s.append(name.as_str());
    s
}

/// Handler for the two-segment route: greet the bound tag and identifier.
pub fn test_2params_separated(resource_type: ResourceType, id: String) -> (r: String)
    ensures
        r@ == two_params_greeting(resource_type, id@),
{
    let mut s = String::from_str("Hello, World! ");
    let name = resource_type.display();
    s.append(name.as_str());
    s.append(" ");
    s.append(id.as_str());
    s
}

/// Handler for the structured route: greet the fields of the compound value.
pub fn test_struc(p: PathStruct) -> (r: String)
    ensures
        r@ == struc_greeting(p@),
{
    let mut s = String::from_str("Hello, World! ");
    let name = p.resource_type.display();
    s.append(name.as_str());
    s.append(" ");
    s.append(p.id.as_str());
    s
}

/// The response of the single-segment route to a raw path segment.
pub open spec fn one_param_response(seg: Seq<char>) -> ResponseView {
    match spec_parse(seg) {
        Some(t) => ResponseView { status: 200, body: one_param_greeting(t) },
        None => ResponseView { status: 400, body: Seq::<char>::empty() },
    }
}

/// The response of the two-segment route to raw path segments.
pub open spec fn two_params_response(seg: Seq<char>, id: Seq<char>) -> ResponseView {
    match spec_parse(seg) {
        Some(t) => ResponseView { status: 200, body: two_params_greeting(t, id) },
        None => ResponseView { status: 400, body: Seq::<char>::empty() },
    }
}

/// The response of the structured route to raw path segments: the segments
/// are bound into one compound value, then handed to its handler.
pub open spec fn struc_response(seg: Seq<char>, id: Seq<char>) -> ResponseView {
    match spec_parse(seg) {
        Some(t) => ResponseView {
            status: 200,
            body: struc_greeting(PathStructView { resource_type: t, id: id }),
        },
        None => ResponseView { status: 400, body: Seq::<char>::empty() },
    }
}

/// Bind and answer the single-segment route. A segment that is a variant
/// name is greeted with status 200; any other segment is rejected with 400.
pub fn route_1param(resource_type: &str) -> (r: Response)
    ensures
        r@ == one_param_response(resource_type@),
        r.status == 200 <==> is_variant_name(resource_type@),
        r.status == 200 || r.status == 400,
{
    match parse(resource_type) {
        Ok(t) => Response { status: 200, body: test_1param(t) },
        Err(_) => Response { status: 400, body: String::new() },
    }
}

/// Bind and answer the two-segment route.
pub fn route_2params_separated(resource_type: &str, id: &str) -> (r: Response)
    ensures
        r@ == two_params_response(resource_type@, id@),
        r.status == 200 <==> is_variant_name(resource_type@),
        r.status == 200 || r.status == 400,
{
    match parse(resource_type) {
        Ok(t) => Response { status: 200, body: test_2params_separated(t, String::from_str(id)) },
        Err(_) => Response { status: 400, body: String::new() },
    }
}

/// Bind and answer the structured route.
pub fn route_struc(resource_type: &str, id: &str) -> (r: Response)
    ensures
        r@ == struc_response(resource_type@, id@),
        r.status == 200 <==> is_variant_name(resource_type@),
        r.status == 200 || r.status == 400,
{
    match parse(resource_type) {
        Ok(t) => Response {
            status: 200,
            body: test_struc(PathStruct { resource_type: t, id: String::from_str(id) }),
        },
        Err(_) => Response { status: 400, body: String::new() },
    }
}

/// The two-segment and structured routes are behaviorally equivalent: for
/// identical raw segments they answer the same status and the same body.
pub proof fn lemma_struc_equivalent_to_two_params(seg: Seq<char>, id: Seq<char>)
    ensures
        struc_response(seg, id).status == two_params_response(seg, id).status,
        struc_response(seg, id).body == two_params_response(seg, id).body,
{
}

/// A segment that matches no variant name is rejected by every parameterized
/// route with a client-error status, and never reaches a handler.
pub proof fn lemma_unknown_name_rejected(seg: Seq<char>, id: Seq<char>)
    requires
        !is_variant_name(seg),
    ensures
        spec_parse(seg) is None,
        one_param_response(seg).status == 400,
        two_params_response(seg, id).status == 400,
        struc_response(seg, id).status == 400,
{
}

} // verus!
