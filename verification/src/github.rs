//! Queries to the hosting service about pull requests, and what their
//! answers list. Sending a request and decoding its answer is left to the
//! caller; here a request is described and a decoded answer is read.

use crate::git_extras::Repo;
use crate::texts;
use vstd::prelude::*;

verus! {

/// Address of the GraphQL endpoint of the hosting service.
pub const GRAPHQL_ENDPOINT: &'static str = "https://api.github.com/graphql";

/// Query document for the pull requests that carry a label.
pub const LABEL_BRANCHES_QUERY: &'static str =
    "query LabelBranches($owner: String!, $name: String!, $label: String!) { repository(owner: $owner, name: $name) { pullRequests(first: 100, labels: [$label]) { nodes { headRefName } } } }";

/// Query document for the pull requests attached to a milestone.
pub const MILESTONE_BRANCHES_QUERY: &'static str =
    "query MilestoneBranches($owner: String!, $name: String!, $milestone: Int!) { repository(owner: $owner, name: $name) { milestone(number: $milestone) { pullRequests(first: 100) { nodes { headRefName } } } } }";

/// The query for the head branches of the pull requests with a label.
#[derive(Debug)]
pub struct LabelBranches;

/// The query for the head branches of the pull requests of a milestone.
#[derive(Debug)]
pub struct MilestoneBranches;

/// Values for the variables of [`LabelBranches`].
#[derive(Debug)]
pub struct LabelVariables {
    pub owner: String,
    pub name: String,
    pub label: String,
}

/// Values for the variables of [`MilestoneBranches`].
#[derive(Debug)]
pub struct MilestoneVariables {
    pub owner: String,
    pub name: String,
    pub milestone: i64,
}

/// A query as it is posted: the document, the operation it names and the
/// values of its variables.
#[derive(Debug)]
pub struct QueryBody<V> {
    pub variables: V,
    pub query: &'static str,
    pub operation_name: &'static str,
}

/// One authenticated post of a query to the hosting service.
#[derive(Debug)]
pub struct ApiRequest<V> {
    pub url: &'static str,
    pub bearer_token: String,
    pub body: QueryBody<V>,
}

/// A pull request, as far as a query asks for it.
#[derive(Debug)]
pub struct PullRequest {
    pub head_ref_name: String,
}

/// One page of pull requests. The service may leave out the list, or any
/// entry of it.
#[derive(Debug)]
pub struct PullRequestConnection {
    pub nodes: Option<Vec<Option<PullRequest>>>,
}

/// A milestone with its pull requests.
#[derive(Debug)]
pub struct Milestone {
    pub pull_requests: PullRequestConnection,
}

/// The repository, in an answer to [`LabelBranches`].
#[derive(Debug)]
pub struct LabelRepository {
    pub pull_requests: PullRequestConnection,
}

/// The repository, in an answer to [`MilestoneBranches`].
#[derive(Debug)]
pub struct MilestoneRepository {
    pub milestone: Option<Milestone>,
}

/// Data of an answer to [`LabelBranches`].
#[derive(Debug)]
pub struct LabelData {
    pub repository: Option<LabelRepository>,
}

/// Data of an answer to [`MilestoneBranches`].
#[derive(Debug)]
pub struct MilestoneData {
    pub repository: Option<MilestoneRepository>,
}

/// Head branch of an entry of a page, where the entry is present.
pub open spec fn head_ref(node: Option<PullRequest>) -> Option<Seq<char>> {
    match node {
        Some(pull_request) => Some(pull_request.head_ref_name@),
        None => None,
    }
}

/// Head branches of the entries that are present, in the order of the page.
pub open spec fn head_refs(nodes: Seq<Option<PullRequest>>) -> Seq<Seq<char>> {
    nodes.filter_map(|node: Option<PullRequest>| head_ref(node))
}

/// Head branches that a page lists; none where the list is left out.
pub open spec fn listed_branches(page: PullRequestConnection) -> Seq<Seq<char>> {
    match page.nodes {
        Some(nodes) => head_refs(nodes@),
        None => Seq::empty(),
    }
}

/// Head branches that an answer to [`LabelBranches`] lists; none where the
/// data or the repository is left out.
pub open spec fn label_branches(data: Option<LabelData>) -> Seq<Seq<char>> {
    match data {
        Some(LabelData { repository: Some(repository) }) => listed_branches(
            repository.pull_requests,
        ),
        _ => Seq::empty(),
    }
}

/// Head branches that an answer to [`MilestoneBranches`] lists; none where
/// the data, the repository or the milestone is left out.
pub open spec fn milestone_branches(data: Option<MilestoneData>) -> Seq<Seq<char>> {
    match data {
        Some(
            MilestoneData { repository: Some(MilestoneRepository { milestone: Some(milestone) }) },
        ) => listed_branches(milestone.pull_requests),
        _ => Seq::empty(),
    }
}

impl LabelBranches {
    /// The body that asks for the pull requests with `variables.label`.
    pub fn build_query(variables: LabelVariables) -> (body: QueryBody<LabelVariables>)
        ensures
            body.variables == variables,
            body.query@ == LABEL_BRANCHES_QUERY@,
            body.operation_name@ == "LabelBranches"@,
    {
        QueryBody { variables, query: LABEL_BRANCHES_QUERY, operation_name: "LabelBranches" }
    }
}

impl MilestoneBranches {
    /// The body that asks for the pull requests of `variables.milestone`.
    pub fn build_query(variables: MilestoneVariables) -> (body: QueryBody<MilestoneVariables>)
        ensures
            body.variables == variables,
            body.query@ == MILESTONE_BRANCHES_QUERY@,
            body.operation_name@ == "MilestoneBranches"@,
    {
        QueryBody {
            variables,
            query: MILESTONE_BRANCHES_QUERY,
            operation_name: "MilestoneBranches",
        }
    }
}

/// The request for the head branches of the pull requests of `repo` that
/// carry `label`, authenticated by `token`.
pub fn label_request(token: String, repo: Repo, label: String) -> (request: ApiRequest<
    LabelVariables,
>)
    ensures
        request.url@ == GRAPHQL_ENDPOINT@,
        request.bearer_token == token,
        request.body.variables == (LabelVariables { owner: repo.owner, name: repo.name, label }),
        request.body.query@ == LABEL_BRANCHES_QUERY@,
        request.body.operation_name@ == "LabelBranches"@,
{
    let body = LabelBranches::build_query(
        LabelVariables { owner: repo.owner, name: repo.name, label },
    );
    ApiRequest { url: GRAPHQL_ENDPOINT, bearer_token: token, body }
}

/// The request for the head branches of the pull requests of `repo` that
/// are attached to `milestone`, authenticated by `token`.
pub fn milestone_request(token: String, repo: Repo, milestone: i64) -> (request: ApiRequest<
    MilestoneVariables,
>)
    ensures
        request.url@ == GRAPHQL_ENDPOINT@,
        request.bearer_token == token,
        request.body.variables == (MilestoneVariables {
            owner: repo.owner,
            name: repo.name,
            milestone,
        }),
        request.body.query@ == MILESTONE_BRANCHES_QUERY@,
        request.body.operation_name@ == "MilestoneBranches"@,
{
    let body = MilestoneBranches::build_query(
        MilestoneVariables { owner: repo.owner, name: repo.name, milestone },
    );
    ApiRequest { url: GRAPHQL_ENDPOINT, bearer_token: token, body }
}

/// Head branches of the entries of `page` that are present, in its order.
fn branches_of_page(page: &PullRequestConnection) -> (branches: Vec<String>)
    ensures
        texts(branches@) == listed_branches(*page),
{
    let mut branches: Vec<String> = Vec::new();
    match &page.nodes {
        Some(nodes) => {
            let mut i: usize = 0;
            while i < nodes.len()
                invariant
                    i <= nodes.len(),
                    texts(branches@) == head_refs(nodes@.take(i as int)),
                decreases nodes.len() - i,
            {
                proof {
                    nodes@.lemma_filter_map_take_succ(
                        |node: Option<PullRequest>| head_ref(node),
                        i as int,
                    );
                }
                match &nodes[i] {
                    Some(pull_request) => {
                        branches.push(pull_request.head_ref_name.clone());
                    },
                    None => {},
                }
                i += 1;
            }
            assert(nodes@.take(nodes.len() as int) =~= nodes@);
        },
        None => {},
    }
    branches
}

/// The branches to integrate for a label: the head branch of each pull
/// request that the answer lists, in the order of the answer.
pub fn branches_by_pr_label(data: Option<LabelData>) -> (branches: Vec<String>)
    ensures
        texts(branches@) == label_branches(data),
{
    match &data {
        Some(LabelData { repository: Some(repository) }) => branches_of_page(
            &repository.pull_requests,
        ),
        _ => Vec::new(),
    }
}

/// The branches to integrate for a milestone: the head branch of each pull
/// request that the answer lists, in the order of the answer.
pub fn branches_by_milestone(data: Option<MilestoneData>) -> (branches: Vec<String>)
    ensures
        texts(branches@) == milestone_branches(data),
{
    match &data {
        Some(
            MilestoneData { repository: Some(MilestoneRepository { milestone: Some(milestone) }) },
        ) => branches_of_page(&milestone.pull_requests),
        _ => Vec::new(),
    }
}

} // verus!
