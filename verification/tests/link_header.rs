use data_loader_rust::github::parse_link_header;

#[test]
fn next_link_is_extracted() {
    let header =
        "<https://api.x/y?page=2>; rel=\"next\", <https://api.x/y?page=5>; rel=\"last\"";
    assert_eq!(
        parse_link_header(header),
        Some("https://api.x/y?page=2".to_string())
    );
}

#[test]
fn header_without_next_gives_none() {
    let header =
        "<https://api.x/y?page=1>; rel=\"prev\", <https://api.x/y?page=5>; rel=\"last\"";
    assert_eq!(parse_link_header(header), None);
}

#[test]
fn next_is_found_in_a_later_entry() {
    let header = "<https://api.x/y?page=1>; rel=\"prev\", <https://api.x/y?page=3>; rel=\"next\", <https://api.x/y?page=9>; rel=\"last\"";
    assert_eq!(
        parse_link_header(header),
        Some("https://api.x/y?page=3".to_string())
    );
}

#[test]
fn first_of_two_next_entries_wins() {
    let header = "<a>; rel=\"next\", <b>; rel=\"next\"";
    assert_eq!(parse_link_header(header), Some("a".to_string()));
}

#[test]
fn empty_header_gives_none() {
    assert_eq!(parse_link_header(""), None);
}

#[test]
fn entry_with_a_third_field_is_passed_over() {
    assert_eq!(parse_link_header("<a>; rel=\"next\"; title=\"t\""), None);
    assert_eq!(
        parse_link_header("<a>; rel=\"next\"; title=\"t\", <b>; rel=\"next\""),
        Some("b".to_string())
    );
}

#[test]
fn entry_without_a_relation_is_passed_over() {
    assert_eq!(parse_link_header("<a>"), None);
}

#[test]
fn white_space_around_fields_is_dropped() {
    assert_eq!(
        parse_link_header("  \t<a>  ;   rel=\"next\"  "),
        Some("a".to_string())
    );
}

#[test]
fn every_angle_bracket_at_the_ends_is_dropped() {
    assert_eq!(
        parse_link_header("<<a>>>; rel=\"next\""),
        Some("a".to_string())
    );
    assert_eq!(parse_link_header("a; rel=\"next\""), Some("a".to_string()));
    assert_eq!(parse_link_header("<>; rel=\"next\""), Some("".to_string()));
}

#[test]
fn brackets_inside_the_target_stay() {
    assert_eq!(
        parse_link_header("<a<b>c>; rel=\"next\""),
        Some("a<b>c".to_string())
    );
}

#[test]
fn relation_must_match_to_the_letter() {
    assert_eq!(parse_link_header("<a>; rel=next"), None);
    assert_eq!(parse_link_header("<a>; REL=\"next\""), None);
    assert_eq!(parse_link_header("<a>; rel=\"next \""), None);
    assert_eq!(parse_link_header("<a>; rel=\"nextpage\""), None);
}

#[test]
fn a_comma_always_separates_entries() {
    assert_eq!(
        parse_link_header("<https://x/y?a=1,2>; rel=\"next\""),
        Some("2".to_string())
    );
}
