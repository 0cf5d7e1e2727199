use typed_routes::resource::ResourceType;
use typed_routes::routes::{
    route_1param, route_2params_separated, route_struc, test_1param, test_2params_separated,
    test_struc, PathStruct,
};

#[test]
fn one_param_route_greets_type1() {
    let r = route_1param("Type1");
    assert_eq!(r.status, 200);
    assert_eq!(r.body, "Hello, World! Type1");
}

#[test]
fn two_params_route_greets_type2() {
    let r = route_2params_separated("Type2", "abc-123");
    assert_eq!(r.status, 200);
    assert_eq!(r.body, "Hello, World! Type2 abc-123");
}

#[test]
fn struc_route_greets_type1() {
    let r = route_struc("Type1", "xyz");
    assert_eq!(r.status, 200);
    assert_eq!(r.body, "Hello, World! Type1 xyz");
}

#[test]
fn one_param_route_rejects_unknown_name() {
    let r = route_1param("Bogus");
    assert_eq!(r.status, 400);
}

#[test]
fn two_params_route_rejects_unknown_name() {
    let r = route_2params_separated("Bogus", "abc-123");
    assert_eq!(r.status, 400);
}

#[test]
fn struc_route_rejects_unknown_name() {
    let r = route_struc("Bogus", "xyz");
    assert_eq!(r.status, 400);
}

#[test]
fn struc_route_matches_two_params_route() {
    for (seg, id) in [("Type1", "xyz"), ("Type2", "abc-123"), ("Bogus", "xyz"), ("", "")] {
        let pair = route_2params_separated(seg, id);
        let struc = route_struc(seg, id);
        assert_eq!(pair.status, struc.status);
        assert_eq!(pair.body, struc.body);
    }
}

#[test]
fn handlers_format_the_greeting() {
    assert_eq!(test_1param(ResourceType::Type1), "Hello, World! Type1");
    assert_eq!(
        test_2params_separated(ResourceType::Type2, String::from("abc-123")),
        "Hello, World! Type2 abc-123"
    );
    let p = PathStruct { resource_type: ResourceType::Type1, id: String::from("xyz") };
    assert_eq!(test_struc(p), "Hello, World! Type1 xyz");
}
