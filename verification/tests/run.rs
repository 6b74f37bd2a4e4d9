//! Tests of the run state machine: credential gating, sequencing, and
//! failure behaviour.

use reteam::error::ClientError;
use reteam::parse::parse_json;
use reteam::protocol::{mutation_request_body, search_request_body};
use reteam::run::{Action, Command, Outcome, Run};

fn search_reply_two_repos() -> Outcome {
    Outcome::Reply(
        parse_json(
            "{\"data\":{\"search\":{\"repositoryCount\":2,\"nodes\":[{\"id\":\"R1\",\"name\":\"alpha\"},{\"id\":\"R2\",\"name\":\"beta\"}]}}}",
        )
        .unwrap(),
    )
}

fn update_reply(name: &str, id: &str) -> Outcome {
    Outcome::Reply(
        parse_json(&format!(
            "{{\"data\":{{\"updateTopics\":{{\"repository\":{{\"name\":\"{}\",\"id\":\"{}\"}}}}}}}}",
            name, id
        ))
        .unwrap(),
    )
}

fn repos_cmd() -> Command {
    Command::Repos {
        organization: "acme".to_string(),
        team: "platform".to_string(),
    }
}

fn update_cmd() -> Command {
    Command::UpdateTopic {
        organization: "acme".to_string(),
        team: "platform".to_string(),
        topic: "newtopic".to_string(),
    }
}

#[test]
fn missing_credential_starts_nothing() {
    let r = Run::start(None, repos_cmd());
    assert!(matches!(r, Err(ClientError::MissingCredential)));
    let r = Run::start(None, update_cmd());
    assert!(matches!(r, Err(ClientError::MissingCredential)));
}

#[test]
fn first_action_is_the_search_request() {
    let run = Run::start(Some("tok".to_string()), repos_cmd()).unwrap();
    match run.action() {
        Action::Request(req) => {
            assert_eq!(req.url, "https://api.github.com/graphql");
            assert_eq!(req.auth, "Bearer tok");
            assert_eq!(req.body, search_request_body("acme", "platform"));
        }
        _ => panic!("expected a request"),
    }
}

#[test]
fn listing_prints_names_in_order_then_stops() {
    let mut run = Run::start(Some("tok".to_string()), repos_cmd()).unwrap();
    assert!(matches!(run.action(), Action::Request(_)));
    let lines = run.on_event(search_reply_two_repos());
    assert_eq!(lines, vec!["alpha".to_string(), "beta".to_string()]);
    assert!(matches!(run.action(), Action::Done));
}

#[test]
fn update_issues_one_mutation_per_repo_in_order() {
    let mut run = Run::start(Some("tok".to_string()), update_cmd()).unwrap();
    let lines = run.on_event(search_reply_two_repos());
    assert!(lines.is_empty());

    match run.action() {
        Action::Request(req) => {
            assert_eq!(req.body, mutation_request_body("R1", "newtopic"));
        }
        _ => panic!("expected the first mutation"),
    }
    let lines = run.on_event(update_reply("alpha", "R1"));
    assert_eq!(
        lines,
        vec!["updated alpha topic from platform to newtopic".to_string()]
    );

    match run.action() {
        Action::Request(req) => {
            assert_eq!(req.body, mutation_request_body("R2", "newtopic"));
        }
        _ => panic!("expected the second mutation"),
    }
    let lines = run.on_event(update_reply("beta", "R2"));
    assert_eq!(
        lines,
        vec!["updated beta topic from platform to newtopic".to_string()]
    );

    assert!(matches!(run.action(), Action::Done));
}

#[test]
fn transport_failure_on_first_mutation_stops_the_run() {
    let mut run = Run::start(Some("tok".to_string()), update_cmd()).unwrap();
    run.on_event(search_reply_two_repos());
    assert!(matches!(run.action(), Action::Request(_)));

    let lines = run.on_event(Outcome::TransportFailed("connection reset".to_string()));
    assert!(lines.is_empty());
    // The mutation for R2 is never issued: the run only asks to fail.
    match run.action() {
        Action::Fail(ClientError::Transport(m)) => assert_eq!(m, "connection reset"),
        _ => panic!("expected the run to fail"),
    }
}

#[test]
fn search_transport_failure_fails_the_run() {
    let mut run = Run::start(Some("tok".to_string()), repos_cmd()).unwrap();
    let lines = run.on_event(Outcome::TransportFailed("dns".to_string()));
    assert!(lines.is_empty());
    assert!(matches!(run.action(), Action::Fail(ClientError::Transport(_))));
}

#[test]
fn undecodable_reply_fails_the_run() {
    let mut run = Run::start(Some("tok".to_string()), repos_cmd()).unwrap();
    let reply = Outcome::Reply(parse_json("{\"unexpected\":true}").unwrap());
    let lines = run.on_event(reply);
    assert!(lines.is_empty());
    assert!(matches!(run.action(), Action::Fail(ClientError::Decode)));
}

#[test]
fn update_with_no_matches_finishes_at_once() {
    let mut run = Run::start(Some("tok".to_string()), update_cmd()).unwrap();
    let reply = Outcome::Reply(
        parse_json("{\"data\":{\"search\":{\"repositoryCount\":0,\"nodes\":[]}}}").unwrap(),
    );
    let lines = run.on_event(reply);
    assert!(lines.is_empty());
    assert!(matches!(run.action(), Action::Done));
}

#[test]
fn error_descriptions() {
    assert_eq!(
        ClientError::MissingCredential.describe(),
        "missing github_token in the environment"
    );
    assert_eq!(
        ClientError::Transport("boom".to_string()).describe(),
        "transport error: boom"
    );
    assert_eq!(
        ClientError::Decode.describe(),
        "response did not match the expected shape"
    );
}
