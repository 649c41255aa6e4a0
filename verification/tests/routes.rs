use beak::route::{
    count_open_braces, PathParams, PatternFault, RouteDescriptor, RouteTable,
    MAX_ROUTE_PARAMETERS,
};
use beak::BeakError;

fn route(pattern: &str, needs_body_part: bool) -> RouteDescriptor {
    RouteDescriptor { path_pattern: pattern.to_string(), needs_body_part }
}

fn table_of(patterns: &[(&str, bool)]) -> RouteTable {
    let descriptors: Vec<RouteDescriptor> =
        patterns.iter().map(|(p, b)| route(p, *b)).collect();
    RouteTable::build(&descriptors).unwrap()
}

#[test]
fn literal_patterns_resolve_to_their_own_descriptor() {
    let patterns = [("/", false), ("/nya", true), ("/about", false), ("/about/team", true), ("/a*b", false)];
    let table = table_of(&patterns);
    assert_eq!(table.len(), patterns.len());
    for (i, (pattern, needs)) in patterns.iter().enumerate() {
        let m = table.resolve(pattern).unwrap();
        assert_eq!(m.route, i);
        assert_eq!(m.needs_body_part, *needs);
        assert!(m.params.is_empty());
        assert_eq!(table.descriptor(i).path_pattern, *pattern);
    }
}

#[test]
fn parameter_slot_binds_the_segment() {
    let table = table_of(&[("/user/{id}", false)]);
    let m = table.resolve("/user/42").unwrap();
    assert_eq!(m.route, 0);
    assert_eq!(m.params.len(), 1);
    assert_eq!(m.params.get("id"), Some("42"));
    assert_eq!(m.params.name_at(0), "id");
    assert_eq!(m.params.value_at(0), "42");
    assert_eq!(m.params.get("name"), None);
}

#[test]
fn empty_segment_does_not_match_a_parameter_slot() {
    let table = table_of(&[("/user/{id}", false)]);
    assert!(table.resolve("/user/").is_none());
    assert!(table.resolve("/user").is_none());
}

#[test]
fn parameters_are_bound_in_the_order_of_the_slots() {
    let table = table_of(&[("/{year}/{month}/post-{slug}.html", true)]);
    let m = table.resolve("/2024/06/post-hello.html").unwrap();
    assert!(m.needs_body_part);
    assert_eq!(m.params.len(), 3);
    assert_eq!(m.params.name_at(0), "year");
    assert_eq!(m.params.value_at(0), "2024");
    assert_eq!(m.params.name_at(1), "month");
    assert_eq!(m.params.value_at(1), "06");
    assert_eq!(m.params.name_at(2), "slug");
    assert_eq!(m.params.value_at(2), "hello");
}

#[test]
fn unmatched_path_resolves_to_nothing() {
    let table = table_of(&[("/nya", false), ("/user/{id}", false)]);
    assert!(table.resolve("/ny").is_none());
    assert!(table.resolve("/nya/").is_none());
    assert!(table.resolve("").is_none());
    assert!(RouteTable::new().resolve("/").is_none());
}

#[test]
fn duplicate_literal_pattern_is_rejected_and_the_first_stays() {
    let mut table = RouteTable::new();
    table.register(route("/nya", false)).unwrap();
    let second = table.register(route("/nya", true));
    assert!(matches!(second, Err(BeakError::DuplicatePattern(ref p)) if p == "/nya"));
    assert_eq!(table.len(), 1);
    let m = table.resolve("/nya").unwrap();
    assert_eq!(m.route, 0);
    assert!(!m.needs_body_part);
}

#[test]
fn colliding_parameter_patterns_are_rejected_as_duplicates() {
    let mut table = RouteTable::new();
    table.register(route("/user/{id}", false)).unwrap();
    let second = table.register(route("/user/{name}", false));
    assert!(matches!(second, Err(BeakError::DuplicatePattern(ref p)) if p == "/user/{name}"));
    assert_eq!(table.resolve("/user/7").unwrap().params.get("id"), Some("7"));
}

#[test]
fn malformed_patterns_are_rejected_with_their_fault() {
    let cases = [
        ("/a/{", PatternFault::InvalidParam),
        ("/a/}", PatternFault::InvalidParam),
        ("/a/{}", PatternFault::InvalidParam),
        ("/{a}{b}", PatternFault::InvalidParamSegment),
        ("/{*rest}/more", PatternFault::InvalidCatchAll),
    ];
    for (pattern, fault) in cases {
        let mut table = RouteTable::new();
        let res = table.register(route(pattern, false));
        assert!(
            matches!(res, Err(BeakError::InvalidPattern(ref p, f)) if p == pattern && f == fault),
            "{pattern}"
        );
        assert_eq!(table.len(), 0);
    }
}

fn pattern_with_slots(n: usize) -> String {
    let mut pattern = String::new();
    for i in 0..n {
        pattern.push_str(&format!("/{{slot{i}}}"));
    }
    pattern
}

#[test]
fn pattern_with_too_many_slots_is_rejected() {
    let pattern = pattern_with_slots(MAX_ROUTE_PARAMETERS + 1);
    assert_eq!(count_open_braces(&pattern), 26);
    let mut table = RouteTable::new();
    let res = table.register(route(&pattern, false));
    assert!(matches!(
        res,
        Err(BeakError::InvalidPattern(_, PatternFault::TooManyParameters))
    ));
    assert_eq!(table.len(), 0);
}

#[test]
fn pattern_with_the_most_slots_is_taken() {
    let pattern = pattern_with_slots(MAX_ROUTE_PARAMETERS);
    assert_eq!(count_open_braces(&pattern), 25);
    let mut table = RouteTable::new();
    table.register(route(&pattern, false)).unwrap();
    let path: String = (0..25).map(|i| format!("/v{i}")).collect();
    let m = table.resolve(&path).unwrap();
    assert_eq!(m.params.len(), 25);
    assert_eq!(m.params.get("slot0"), Some("v0"));
    assert_eq!(m.params.get("slot24"), Some("v24"));
}

#[test]
fn rejected_registration_leaves_the_table_usable() {
    let mut table = table_of(&[("/", false), ("/files/{name}", true), ("/about", false)]);
    for bad in ["/about", "/files/{other}", "/x/{", "/files/{*rest}/y", "/{a}{b}"] {
        assert!(table.register(route(bad, false)).is_err(), "{bad}");
        assert_eq!(table.len(), 3);
        assert_eq!(table.resolve("/").unwrap().route, 0);
        let m = table.resolve("/files/cat.png").unwrap();
        assert_eq!(m.route, 1);
        assert!(m.needs_body_part);
        assert_eq!(m.params.get("name"), Some("cat.png"));
        assert_eq!(table.resolve("/about").unwrap().route, 2);
        assert!(table.resolve("/x/y").is_none());
    }
    table.register(route("/x/{y}", false)).unwrap();
    assert_eq!(table.resolve("/x/y").unwrap().route, 3);
}

#[test]
fn build_stops_at_the_first_refused_descriptor() {
    let descriptors = vec![
        route("/a", false),
        route("/b", false),
        route("/a", true),
        route("/c/{", false),
    ];
    let res = RouteTable::build(&descriptors);
    assert!(matches!(res, Err(BeakError::DuplicatePattern(ref p)) if p == "/a"));
    let res = RouteTable::build(&descriptors[..2]);
    assert_eq!(res.unwrap().len(), 2);
    let res = RouteTable::build(&descriptors[3..]);
    assert!(matches!(
        res,
        Err(BeakError::InvalidPattern(_, PatternFault::InvalidParam))
    ));
    assert_eq!(RouteTable::build(&[]).unwrap().len(), 0);
}

#[test]
fn static_segments_go_before_dynamic_ones() {
    let table = table_of(&[("/{*rest}", false), ("/about", false), ("/user/{id}", false), ("/user/me", false)]);
    assert_eq!(table.resolve("/about").unwrap().route, 1);
    assert_eq!(table.resolve("/user/me").unwrap().route, 3);
    assert_eq!(table.resolve("/user/you").unwrap().route, 2);
    let m = table.resolve("/else/where").unwrap();
    assert_eq!(m.route, 0);
    assert_eq!(m.params.get("rest"), Some("else/where"));
}

#[test]
fn first_parameter_of_a_name_is_found() {
    let params = PathParams::from_pairs(vec![
        ("a".to_string(), "1".to_string()),
        ("b".to_string(), "2".to_string()),
        ("a".to_string(), "3".to_string()),
    ]);
    assert_eq!(params.len(), 3);
    assert!(!params.is_empty());
    assert_eq!(params.get("a"), Some("1"));
    assert_eq!(params.get("b"), Some("2"));
    assert_eq!(params.get("c"), None);
    assert!(PathParams::from_pairs(Vec::new()).is_empty());
}

#[test]
fn open_braces_are_counted() {
    assert_eq!(count_open_braces(""), 0);
    assert_eq!(count_open_braces("/nya"), 0);
    assert_eq!(count_open_braces("/{a}/{{b}}/}"), 3);
    assert_eq!(count_open_braces("/é{ü}"), 1);
}
