//! Issue-tracker workflow events, as the ingestion gateway reads them.

use vstd::prelude::*;

verus! {

/// The payload of a workflow run, by the event that triggered it.
#[derive(Debug, Clone, PartialEq)]
pub enum ContextPayload {
    Issues { event: IssueEvent },
    IssueComment { event: IssueCommentEvent },
    WorkflowDispatch {},
    Unimplemented,
}

/// The same payload under the name the workflow tooling gives it.
pub type ActionContextPayload = ContextPayload;

#[derive(Debug, Clone, PartialEq)]
pub struct IssueEvent {
    pub action: IssueEventAction,
    pub issue: Issue,
    pub repository: Repository,
}

#[derive(Clone, Copy, Debug, PartialEq, Eq, Structural)]
pub enum IssueEventAction {
    Opened,
    Edited,
    Deleted,
    Closed,
    Reopened,
    Locked,
    Unimplemented,
}

#[derive(Clone, Copy, Debug, PartialEq, Eq, Structural)]
pub enum IssueState {
    Open,
    Closed,
    Unimplemented,
}

#[derive(Debug, Clone, PartialEq)]
pub struct Issue {
    pub id: u64,
    pub title: String,
    pub body: String,
    pub user: User,
    pub locked: bool,
    pub state: IssueState,
}

#[derive(Debug, Clone, PartialEq)]
pub struct Repository {
    pub default_branch: String,
    pub full_name: String,
    pub name: String,
    pub owner: RepositoryOwner,
}

#[derive(Debug, Clone, PartialEq)]
pub struct RepositoryOwner {
    pub login: String,
}

#[derive(Debug, Clone, PartialEq)]
pub struct User {
    pub username: String,
}

#[derive(Debug, Clone, PartialEq)]
pub struct IssueCommentEvent {
    pub action: IssueCommentEventAction,
    pub comment: IssueComment,
    pub issue: Issue,
    pub repository: Repository,
}

#[derive(Clone, Copy, Debug, PartialEq, Eq, Structural)]
pub enum IssueCommentEventAction {
    Created,
    Edited,
    Deleted,
    Unimplemented,
}

#[derive(Clone, Copy, Debug, PartialEq, Eq, Structural)]
pub enum CommentAuthorAssociation {
    Collaborator,
    Contributor,
    Member,
    Owner,
    NoAssociation,
}

#[derive(Debug, Clone, PartialEq)]
pub struct IssueComment {
    pub id: u64,
    pub body: String,
    pub user: User,
    pub author_association: CommentAuthorAssociation,
}

} // verus!
