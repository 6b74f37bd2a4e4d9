//! Tests of the wire protocol: query strings, request framing, escaping,
//! and response decoding.

use reteam::json::Json;
use reteam::parse::parse_json;
use reteam::protocol::{
    confirmation_line, decode_search, decode_update, mutation_request_body, repo_names,
    search_query, search_request_body, tagged_repos_query, SearchResults,
};

const SEARCH_TEXT: &str = "\nquery TaggedRepos($query: String!) {\n  search(query: $query, type: REPOSITORY, first: 100) {\n    repositoryCount\n    nodes {\n      ... on Repository {\n        name,\n        id\n      }\n    }\n  }\n}\n";

#[test]
fn search_query_format() {
    let q = search_query("acme", "platform");
    assert_eq!(q, "org:acme topic:platform");
}

#[test]
fn search_query_empty_parts() {
    assert_eq!(search_query("", ""), "org: topic:");
}

#[test]
fn search_body_exact() {
    let body = search_request_body("a", "b");
    let expected = format!(
        "{{\"query\":\"{}\",\"variables\":{{\"query\":\"org:a topic:b\"}}}}",
        SEARCH_TEXT.replace('\n', "\\n")
    );
    assert_eq!(body, expected);
}

#[test]
fn search_body_is_valid_json_with_expected_fields() {
    let body = search_request_body("acme", "platform");
    let v: serde_json::Value = serde_json::from_str(&body).unwrap();
    assert_eq!(v["query"].as_str().unwrap(), tagged_repos_query());
    assert_eq!(
        v["variables"]["query"].as_str().unwrap(),
        "org:acme topic:platform"
    );
}

#[test]
fn mutation_body_fields() {
    let body = mutation_request_body("R1", "newtopic");
    let v: serde_json::Value = serde_json::from_str(&body).unwrap();
    assert_eq!(v["variables"]["repoId"].as_str().unwrap(), "R1");
    assert_eq!(v["variables"]["topicName"].as_str().unwrap(), "newtopic");
}

#[test]
fn escaping_round_trips_through_a_real_decoder() {
    let awkward = "a\"b\\c\nd\te\rf\u{1}g\u{1f}h ünicode";
    let body = search_request_body(awkward, "topic with spaces");
    let v: serde_json::Value = serde_json::from_str(&body).unwrap();
    assert_eq!(
        v["variables"]["query"].as_str().unwrap(),
        format!("org:{} topic:topic with spaces", awkward)
    );
}

#[test]
fn envelope_round_trip() {
    let j = parse_json(
        "{\"data\":{\"search\":{\"repositoryCount\":1,\"nodes\":[{\"name\":\"x\",\"id\":\"1\"}]}}}",
    )
    .unwrap();
    let results = decode_search(&j).unwrap();
    assert_eq!(results.repos.len(), 1);
    assert_eq!(results.repos[0].name, "x");
    assert_eq!(results.repos[0].id, "1");
}

#[test]
fn decode_search_keeps_server_order() {
    let j = parse_json(
        "{\"data\":{\"search\":{\"repositoryCount\":2,\"nodes\":[{\"id\":\"R1\",\"name\":\"alpha\"},{\"id\":\"R2\",\"name\":\"beta\"}]}}}",
    )
    .unwrap();
    let results = decode_search(&j).unwrap();
    let names = repo_names(&results);
    assert_eq!(names, vec!["alpha".to_string(), "beta".to_string()]);
}

#[test]
fn decode_search_ignores_extra_fields() {
    let j = parse_json(
        "{\"data\":{\"search\":{\"repositoryCount\":1,\"extra\":null,\"nodes\":[{\"id\":\"R1\",\"name\":\"alpha\",\"stars\":3}]}}}",
    )
    .unwrap();
    let results = decode_search(&j).unwrap();
    assert_eq!(results.repos.len(), 1);
    assert_eq!(results.repos[0].id, "R1");
}

#[test]
fn decode_update_reports_the_repository() {
    let j = parse_json("{\"data\":{\"updateTopics\":{\"repository\":{\"name\":\"alpha\",\"id\":\"R1\"}}}}")
        .unwrap();
    let rep = decode_update(&j).unwrap();
    assert_eq!(rep.name, "alpha");
    assert_eq!(rep.id, "R1");
}

#[test]
fn decode_rejects_wrong_shapes() {
    let errors_reply = parse_json("{\"errors\":[{\"message\":\"bad\"}]}").unwrap();
    assert!(decode_search(&errors_reply).is_none());
    assert!(decode_update(&errors_reply).is_none());

    let node_not_object = parse_json("{\"data\":{\"search\":{\"repositoryCount\":1,\"nodes\":[7]}}}").unwrap();
    assert!(decode_search(&node_not_object).is_none());

    let nodes_not_an_array =
        parse_json("{\"data\":{\"search\":{\"nodes\":{}}}}").unwrap();
    assert!(decode_search(&nodes_not_an_array).is_none());
}

#[test]
fn decode_search_reads_only_the_nodes() {
    // The count field is not read: absent, or of any type, the decode
    // succeeds, as the tool's own response types never model it.
    let count_absent = parse_json("{\"data\":{\"search\":{\"nodes\":[]}}}").unwrap();
    assert!(decode_search(&count_absent).unwrap().repos.is_empty());

    let count_a_string =
        parse_json("{\"data\":{\"search\":{\"repositoryCount\":\"1\",\"nodes\":[]}}}").unwrap();
    assert!(decode_search(&count_a_string).unwrap().repos.is_empty());

    let count_a_float = parse_json(
        "{\"data\":{\"search\":{\"repositoryCount\":1.5,\"nodes\":[{\"id\":\"R1\",\"name\":\"alpha\",\"score\":0.5}]}}}",
    )
    .unwrap();
    let results = decode_search(&count_a_float).unwrap();
    assert_eq!(results.repos.len(), 1);
    assert_eq!(results.repos[0].name, "alpha");
}

#[test]
fn parse_json_builds_a_tree_not_text() {
    match parse_json("\"abc\"").unwrap() {
        Json::Str(s) => assert_eq!(s, "abc"),
        _ => panic!("expected a string node"),
    }
    match parse_json("[1,2]").unwrap() {
        Json::Arr(items) => {
            assert_eq!(items.len(), 2);
            assert!(matches!(items[0], Json::Num(Some(1))));
            assert!(matches!(items[1], Json::Num(Some(2))));
        }
        _ => panic!("expected an array node"),
    }
}

#[test]
fn parse_json_keeps_numbers_outside_i64_as_nodes() {
    // A float or an oversized integer still parses; it only reads as no
    // integer at all.
    assert_eq!(parse_json("7").unwrap().as_int(), Some(7));
    assert_eq!(parse_json("1.5").unwrap().as_int(), None);
    assert_eq!(parse_json("18446744073709551615").unwrap().as_int(), None);
}

#[test]
fn parse_json_rejects_bad_input() {
    assert!(parse_json("not json at all").is_err());
    assert!(parse_json("").is_err());
}

#[test]
fn confirmation_line_format() {
    let line = confirmation_line("alpha", "oldteam", "newtopic");
    assert_eq!(line, "updated alpha topic from oldteam to newtopic");
}

#[test]
fn repo_names_of_empty_search() {
    let results = SearchResults { repos: Vec::new() };
    assert!(repo_names(&results).is_empty());
}
