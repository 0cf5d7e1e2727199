//! The service's self-description: the routes it exposes, their path
//! parameters, and the resource-type schema, as plain data.
//!
//! This is a static reflection over the route declarations: it depends on no
//! request state, so its contract pins every field and repeated calls agree.
//! The surrounding application renders it into its published document format.

use vstd::prelude::*;
use vstd::string::*;

use crate::resource::{name_of, ResourceType};

verus! {

/// The declared type of a path parameter: the closed resource-type tag, or
/// free text taken verbatim.
#[derive(Clone, Copy, Debug, PartialEq, Eq, Structural)]
pub enum ParamKind {
    Resource,
    Text,
}

/// One declared path parameter of a route.
pub struct ParamDoc {
    pub name: String,
    pub kind: ParamKind,
}

/// One declared route: its HTTP method, path template and path parameters.
pub struct RouteDoc {
    pub method: String,
    pub path: String,
    pub params: Vec<ParamDoc>,
}

/// The documentation document: the declared routes, and the resource-type
/// schema as the list of its variant names.
pub struct ApiDoc {
    pub routes: Vec<RouteDoc>,
    pub resource_type_variants: Vec<String>,
}

/// Build the service description. The contract pins the whole document: it
/// lists exactly the three parameterized routes, each with method `get` and
/// its declared parameters, and exactly the two variant names of the
/// resource-type schema.
pub fn openapi() -> (d: ApiDoc)
    ensures
        d.routes@.len() == 3,
        d.routes@[0].method@ == "get"@,
        d.routes@[0].path@ == "/test_1param/{resource_type}"@,
        d.routes@[0].params@.len() == 1,
        d.routes@[0].params@[0].name@ == "resource_type"@,
        d.routes@[0].params@[0].kind == ParamKind::Resource,
        d.routes@[1].method@ == "get"@,
        d.routes@[1].path@ == "/test_2params_separated/{resource_type}/{id}"@,
        d.routes@[1].params@.len() == 2,
        d.routes@[1].params@[0].name@ == "resource_type"@,
        d.routes@[1].params@[0].kind == ParamKind::Resource,
        d.routes@[1].params@[1].name@ == "id"@,
        d.routes@[1].params@[1].kind == ParamKind::Text,
        d.routes@[2].method@ == "get"@,
        d.routes@[2].path@ == "/test_struc/{resource_type}/{id}"@,
        d.routes@[2].params@.len() == 2,
        d.routes@[2].params@[0].name@ == "resource_type"@,
        d.routes@[2].params@[0].kind == ParamKind::Resource,
        d.routes@[2].params@[1].name@ == "id"@,
        d.routes@[2].params@[1].kind == ParamKind::Text,
        d.resource_type_variants@.len() == 2,
        d.resource_type_variants@[0]@ == name_of(ResourceType::Type1),
        d.resource_type_variants@[1]@ == name_of(ResourceType::Type2),
{
    let mut params_1: Vec<ParamDoc> = Vec::new();
    params_1.push(ParamDoc { name: String::from_str("resource_type"), kind: ParamKind::Resource });

    let mut params_2: Vec<ParamDoc> = Vec::new();
    params_2.push(ParamDoc { name: String::from_str("resource_type"), kind: ParamKind::Resource });
    params_2.push(ParamDoc { name: String::from_str("id"), kind: ParamKind::Text });

    let mut params_s: Vec<ParamDoc> = Vec::new();
    params_s.push(ParamDoc { name: String::from_str("resource_type"), kind: ParamKind::Resource });
    params_s.push(ParamDoc { name: String::from_str("id"), kind: ParamKind::Text });

    let mut routes: Vec<RouteDoc> = Vec::new();
    routes.push(RouteDoc {
        method: String::from_str("get"),
        path: String::from_str("/test_1param/{resource_type}"),
        params: params_1,
    });
    routes.push(RouteDoc {
        method: String::from_str("get"),
        path: String::from_str("/test_2params_separated/{resource_type}/{id}"),
        params: params_2,
    });
    routes.push(RouteDoc {
        method: String::from_str("get"),
        path: String::from_str("/test_struc/{resource_type}/{id}"),
        params: params_s,
    });

    let mut variants: Vec<String> = Vec::new();
    variants.push(String::from_str("Type1"));
    variants.push(String::from_str("Type2"));

    ApiDoc { routes, resource_type_variants: variants }
}

} // verus!
