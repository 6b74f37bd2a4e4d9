//! The wire protocol: the two fixed GraphQL operations, the framing of
//! request bodies, and the decoding of the two fixed response shapes.

use vstd::prelude::*;
use vstd::string::*;

use crate::escape::{append_json_string, json_string};
use crate::json::{json_arr, json_field, json_str, Json};

verus! {

/// The search string sent to the repository search API:
/// `org:<organization> topic:<topic>`.
pub open spec fn search_query_spec(org: Seq<char>, topic: Seq<char>) -> Seq<char> {
    "org:"@ + org + " topic:"@ + topic
}

/// Builds the search string `org:<organization> topic:<topic>`.
pub fn search_query(organization: &str, topic: &str) -> (r: String)
    ensures
        r@ == search_query_spec(organization@, topic@),
{
    let mut out = String::from_str("org:");
    out.append(organization);
    out.append(" topic:");
    out.append(topic);
    out
}

/// The fixed search operation: up to 100 repositories matching a search
/// string, each with its name and id.
pub open spec fn tagged_repos_query_spec() -> Seq<char> {
    "\nquery TaggedRepos($query: String!) {\n  search(query: $query, type: REPOSITORY, first: 100) {\n    repositoryCount\n    nodes {\n      ... on Repository {\n        name,\n        id\n      }\n    }\n  }\n}\n"@
}

/// The fixed mutation: replaces a repository's topic set with the single
/// given topic.
pub open spec fn tag_repo_mutation_spec() -> Seq<char> {
    "\nmutation TagRepo($repoId: ID!, $topicName: String!) {\n  updateTopics(input: {repositoryId: $repoId, topicNames: [$topicName]}) {\n    repository {\n      name,\n      id\n    }\n  }\n}\n"@
}

/// The text of the search operation.
pub fn tagged_repos_query() -> (r: &'static str)
    ensures
        r@ == tagged_repos_query_spec(),
{
    "\nquery TaggedRepos($query: String!) {\n  search(query: $query, type: REPOSITORY, first: 100) {\n    repositoryCount\n    nodes {\n      ... on Repository {\n        name,\n        id\n      }\n    }\n  }\n}\n"
}

/// The text of the topic-update mutation.
pub fn tag_repo_mutation() -> (r: &'static str)
    ensures
        r@ == tag_repo_mutation_spec(),
{
    "\nmutation TagRepo($repoId: ID!, $topicName: String!) {\n  updateTopics(input: {repositoryId: $repoId, topicNames: [$topicName]}) {\n    repository {\n      name,\n      id\n    }\n  }\n}\n"
}

/// A request body `{"query": <operation>, "variables": <variables>}`, with
/// the operation text as a JSON string and the variables already framed.
pub open spec fn request_body_spec(operation: Seq<char>, variables: Seq<char>) -> Seq<char> {
    "{\"query\":"@ + json_string(operation) + ",\"variables\":"@ + variables + "}"@
}

/// The variables of the search operation: `{"query": <search string>}`.
pub open spec fn search_variables_spec(org: Seq<char>, topic: Seq<char>) -> Seq<char> {
    "{\"query\":"@ + json_string(search_query_spec(org, topic)) + "}"@
}

/// The variables of the mutation: `{"repoId": <id>, "topicName": <topic>}`.
pub open spec fn mutation_variables_spec(repo_id: Seq<char>, topic: Seq<char>) -> Seq<char> {
    "{\"repoId\":"@ + json_string(repo_id) + ",\"topicName\":"@ + json_string(topic) + "}"@
}

/// The whole body of a search request.
pub open spec fn search_request_body_spec(org: Seq<char>, topic: Seq<char>) -> Seq<char> {
    request_body_spec(tagged_repos_query_spec(), search_variables_spec(org, topic))
}

/// The whole body of a topic-update request.
pub open spec fn mutation_request_body_spec(repo_id: Seq<char>, topic: Seq<char>) -> Seq<char> {
    request_body_spec(tag_repo_mutation_spec(), mutation_variables_spec(repo_id, topic))
}

/// Builds the body of the search request for `org:<organization>
/// topic:<topic>`.
pub fn search_request_body(organization: &str, topic: &str) -> (r: String)
    ensures
        r@ == search_request_body_spec(organization@, topic@),
{
    let q = search_query(organization, topic);
    let mut out = String::from_str("{\"query\":");
    append_json_string(&mut out, tagged_repos_query());
    out.append(",\"variables\":");
    out.append("{\"query\":");
    append_json_string(&mut out, q.as_str());
    out.append("}");
    out.append("}");
    proof {
        assert(out@ =~= search_request_body_spec(organization@, topic@));
    }
    out
}

/// Builds the body of the request that replaces the topics of the repository
/// `repo_id` with the single topic `topic`.
pub fn mutation_request_body(repo_id: &str, topic: &str) -> (r: String)
    ensures
        r@ == mutation_request_body_spec(repo_id@, topic@),
{
    let mut out = String::from_str("{\"query\":");
    append_json_string(&mut out, tag_repo_mutation());
    out.append(",\"variables\":");
    out.append("{\"repoId\":");
    append_json_string(&mut out, repo_id);
    out.append(",\"topicName\":");
    append_json_string(&mut out, topic);
    out.append("}");
    out.append("}");
    proof {
        assert(out@ =~= mutation_request_body_spec(repo_id@, topic@));
    }
    out
}

/// A repository as the search returns it: its platform-assigned id and its
/// human-readable name.
pub struct Repo {
    pub id: String,
    pub name: String,
}

/// The mathematical value of a [`Repo`].
pub ghost struct RepoV {
    pub id: Seq<char>,
    pub name: Seq<char>,
}

impl View for Repo {
    type V = RepoV;

    open spec fn view(&self) -> RepoV {
        RepoV { id: self.id@, name: self.name@ }
    }
}

/// What the search returned: the first page of matching repositories, in
/// the server's order.  The reply also carries a `repositoryCount` field;
/// nothing here reads it, so the decoder leaves it alone, whatever it holds.
pub struct SearchResults {
    pub repos: Vec<Repo>,
}

/// The mathematical value of a [`SearchResults`].
pub ghost struct SearchV {
    pub repos: Seq<RepoV>,
}

impl View for SearchResults {
    type V = SearchV;

    open spec fn view(&self) -> SearchV {
        SearchV { repos: self.repos@.map_values(|r: Repo| r@) }
    }
}

/// The repository described by `{"name": ..., "id": ...}`.
pub open spec fn repo_of(j: Json) -> Option<RepoV> {
    match json_field(j, "id"@) {
        Some(idj) => match json_str(idj) {
            Some(id) => match json_field(j, "name"@) {
                Some(namej) => match json_str(namej) {
                    Some(name) => Some(RepoV { id, name }),
                    None => None,
                },
                None => None,
            },
            None => None,
        },
        None => None,
    }
}

/// Whether every node of a search response decodes to a repository.
pub open spec fn all_repos(nodes: Seq<Json>) -> bool {
    forall|i: int| 0 <= i < nodes.len() ==> repo_of(nodes[i]) is Some
}

/// The repositories of a search response, in the order of its nodes.
pub open spec fn repos_of(nodes: Seq<Json>) -> Seq<RepoV> {
    nodes.map_values(|n: Json| repo_of(n).unwrap())
}

/// The search response `{"data": {"search": {"nodes": [...]}}}`.  Fields
/// beyond those read here — `repositoryCount` among them — do not matter.
pub open spec fn search_of(j: Json) -> Option<SearchV> {
    match json_field(j, "data"@) {
        Some(data) => match json_field(data, "search"@) {
            Some(search) => match json_field(search, "nodes"@) {
                Some(nj) => match json_arr(nj) {
                    Some(nodes) => if all_repos(nodes) {
                        Some(SearchV { repos: repos_of(nodes) })
                    } else {
                        None
                    },
                    None => None,
                },
                None => None,
            },
            None => None,
        },
        None => None,
    }
}

/// The mutation response
/// `{"data": {"updateTopics": {"repository": {...}}}}`.
pub open spec fn update_of(j: Json) -> Option<RepoV> {
    match json_field(j, "data"@) {
        Some(data) => match json_field(data, "updateTopics"@) {
            Some(ut) => match json_field(ut, "repository"@) {
                Some(rj) => repo_of(rj),
                None => None,
            },
            None => None,
        },
        None => None,
    }
}

/// Decodes one node of the search response into a repository.
fn decode_repo(j: &Json) -> (r: Option<Repo>)
    ensures
        match r {
            Some(rep) => repo_of(*j) == Some(rep@),
            None => repo_of(*j) is None,
        },
{
    match j.get_field("id") {
        Some(idj) => match idj.as_str() {
            Some(id) => match j.get_field("name") {
                Some(namej) => match namej.as_str() {
                    Some(name) => Some(Repo { id: id.clone(), name: name.clone() }),
                    None => None,
                },
                None => None,
            },
            None => None,
        },
        None => None,
    }
}

/// Decodes the search response.  `Some` exactly when `data.search.nodes` is
/// an array of objects each carrying string `id` and `name`, and then the
/// repositories come out in the order of the response's nodes.  Everything
/// else in the reply is ignored.
pub fn decode_search(j: &Json) -> (r: Option<SearchResults>)
    ensures
        match r {
            Some(s) => search_of(*j) == Some(s@),
            None => search_of(*j) is None,
        },
{
    let data = match j.get_field("data") {
        Some(d) => d,
        None => {
            return None;
        },
    };
    let search = match data.get_field("search") {
        Some(s) => s,
        None => {
            return None;
        },
    };
    let nodes = match search.get_field("nodes") {
        Some(nj) => match nj.as_arr() {
            Some(items) => items,
            None => {
                return None;
            },
        },
        None => {
            return None;
        },
    };
    let n = nodes.len();
    let mut repos: Vec<Repo> = Vec::new();
    let mut i: usize = 0;
    #[verifier::loop_isolation(false)]
    while i < n
        invariant
            i <= n,
            forall|t: int| 0 <= t < i ==> repo_of(nodes@[t]) is Some,
            repos@.len() == i,
            forall|t: int| 0 <= t < i ==> repos@.map_values(|r: Repo| r@)[t] == repo_of(
                nodes@[t],
            ).unwrap(),
        decreases n - i,
    {
        match decode_repo(&nodes[i]) {
            Some(rep) => {
                repos.push(rep);
            },
            None => {
                return None;
            },
        }
        i = i + 1;
    }
    proof {
        assert(repos@.map_values(|r: Repo| r@) =~= repos_of(nodes@));
    }
    Some(SearchResults { repos })
}

/// Decodes the mutation response into the repository it reports as updated.
/// `Some` exactly when the document has the expected shape.
pub fn decode_update(j: &Json) -> (r: Option<Repo>)
    ensures
        match r {
            Some(rep) => update_of(*j) == Some(rep@),
            None => update_of(*j) is None,
        },
{
    let data = match j.get_field("data") {
        Some(d) => d,
        None => {
            return None;
        },
    };
    let ut = match data.get_field("updateTopics") {
        Some(u) => u,
        None => {
            return None;
        },
    };
    match ut.get_field("repository") {
        Some(rj) => decode_repo(rj),
        None => None,
    }
}

/// The names of the matched repositories, one per line of the List output,
/// in the order the search returned them.
pub fn repo_names(s: &SearchResults) -> (r: Vec<String>)
    ensures
        r.deep_view() == s@.repos.map_values(|rep: RepoV| rep.name),
{
    let n = s.repos.len();
    let mut out: Vec<String> = Vec::new();
    let mut i: usize = 0;
    #[verifier::loop_isolation(false)]
    while i < n
        invariant
            i <= n,
            out@.len() == i,
            forall|t: int| 0 <= t < i ==> out@[t]@ == s@.repos[t].name,
        decreases n - i,
    {
        out.push(s.repos[i].name.clone());
        i = i + 1;
    }
    proof {
        assert(out.deep_view() =~= s@.repos.map_values(|rep: RepoV| rep.name));
    }
    out
}

/// The confirmation line printed after one successful update:
/// `updated <name> topic from <team> to <topic>`.
pub open spec fn confirmation_line_spec(name: Seq<char>, team: Seq<char>, topic: Seq<char>) -> Seq<
    char,
> {
    "updated "@ + name + " topic from "@ + team + " to "@ + topic
}

/// Builds the confirmation line for one updated repository.
pub fn confirmation_line(name: &str, team: &str, topic: &str) -> (r: String)
    ensures
        r@ == confirmation_line_spec(name@, team@, topic@),
{
    let mut out = String::from_str("updated ");
    out.append(name);
    out.append(" topic from ");
    out.append(team);
    out.append(" to ");
    out.append(topic);
    out
}

} // verus!
