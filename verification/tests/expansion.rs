//! Tests of template expansion and query-parameter decoding.

use teleapi::query::query_param;
use teleapi::template::expand_vars;

fn b(s: &str) -> Vec<u8> {
    s.as_bytes().to_vec()
}

#[test]
fn single_placeholder_is_replaced() {
    assert_eq!(expand_vars(&b("/{name}"), &b("name=value")), b("/value"));
}

#[test]
fn template_without_braces_is_unchanged() {
    assert_eq!(expand_vars(&b("/plain/path"), &b("name=value")), b("/plain/path"));
}

#[test]
fn absent_parameter_leaves_braces_intact() {
    assert_eq!(expand_vars(&b("/{missing}"), &b("name=value")), b("/{missing}"));
}

#[test]
fn substituted_value_expands_again_in_same_call() {
    // the value of `a` percent-encodes `{b}`, which then resolves in turn
    assert_eq!(expand_vars(&b("{a}"), &b("a=%7Bb%7D&b=x")), b("x"));
}

#[test]
fn several_placeholders_resolve_left_to_right() {
    assert_eq!(expand_vars(&b("/{d}/{f}"), &b("d=etc&f=hosts")), b("/etc/hosts"));
}

#[test]
fn closing_brace_before_opening_brace_is_left_alone() {
    assert_eq!(expand_vars(&b("}a{"), &b("a=x")), b("}a{"));
}

#[test]
fn missing_closing_brace_is_left_alone() {
    assert_eq!(expand_vars(&b("/{name"), &b("name=value")), b("/{name"));
}

#[test]
fn self_regenerating_placeholder_stops_at_the_bound() {
    // `a` expands to `{a}` forever; the bound must end the recursion
    assert_eq!(expand_vars(&b("{a}"), &b("a=%7Ba%7D")), b("{a}"));
}

#[test]
fn query_param_finds_first_pair_with_the_name() {
    assert_eq!(query_param(&b("a=1&b=2"), &b("b")), Some(b("2")));
    assert_eq!(query_param(&b("x=1&x=2"), &b("x")), Some(b("1")));
    assert_eq!(query_param(&b("a=1&b=2"), &b("c")), None);
    assert_eq!(query_param(&b(""), &b("a")), None);
}

#[test]
fn bare_name_yields_empty_value() {
    assert_eq!(query_param(&b("flag"), &b("flag")), Some(b("")));
    assert_eq!(query_param(&b("a=1&flag"), &b("flag")), Some(b("")));
}

#[test]
fn value_stops_at_second_equals_sign() {
    assert_eq!(query_param(&b("a=b=c"), &b("a")), Some(b("b")));
}

#[test]
fn plus_and_percent_escapes_decode() {
    assert_eq!(query_param(&b("n=a+b%21"), &b("n")), Some(b("a b!")));
    assert_eq!(query_param(&b("n=%2F%2f"), &b("n")), Some(b("//")));
}

#[test]
fn malformed_percent_escape_passes_through() {
    assert_eq!(query_param(&b("n=%zz"), &b("n")), Some(b("%zz")));
    assert_eq!(query_param(&b("n=%2"), &b("n")), Some(b("%2")));
}

#[test]
fn undecodable_value_is_replaced_lossily() {
    assert_eq!(
        query_param(&b("n=%ff"), &b("n")),
        Some("\u{fffd}".as_bytes().to_vec())
    );
}

#[test]
fn name_must_match_a_whole_pair_prefix() {
    // `lo` is not supplied by the pair `hello=5`
    assert_eq!(query_param(&b("hello=5"), &b("lo")), None);
}

#[test]
fn empty_placeholder_resolves_against_a_bare_empty_pair() {
    // the empty query splits into one empty pair, which supplies the empty
    // name with an empty value
    assert_eq!(expand_vars(&b("a{}b"), &b("")), b("ab"));
}

#[test]
fn unresolvable_first_placeholder_blocks_later_ones() {
    assert_eq!(expand_vars(&b("/{x}/{y}"), &b("y=2")), b("/{x}/{y}"));
}
