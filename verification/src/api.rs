//! Requests to the remote API and its replies, as plain values: the shell
//! sends the one and hands back the other.

use crate::repository::{
    CreateRepoRequest, CreateRepoRequestView, Repository, RepositoryView, UpdateRequest,
};
use vstd::prelude::*;

verus! {

/// The HTTP method of a request.
#[derive(Debug, Clone, Copy, PartialEq, Eq, Structural)]
pub enum Method {
    Get,
    Post,
    Patch,
    Delete,
}

/// How the reply to a request is to be read.
#[derive(Debug, Clone, Copy, PartialEq, Eq, Structural)]
pub enum ReplyKind {
    /// A success carries the profile of the user that the token belongs to
    /// as a JSON object, of which the login is read. Of a refusal only the
    /// status is read.
    Profile,
    /// A success carries the caller's repositories as a JSON array. Of a
    /// refusal only the status is read.
    RepositoryList,
    /// A success carries the new repository as a JSON object. A refusal is
    /// read with the text of its body.
    NewRepository,
    /// Nothing is read of a success. A refusal is read with the text of its
    /// body.
    Outcome,
}

/// The JSON body of a request.
#[derive(Debug, PartialEq, Eq)]
pub enum RequestBody {
    Empty,
    Create(CreateRepoRequest),
    Update(UpdateRequest),
}

/// What a `RequestBody` holds.
pub enum RequestBodyView {
    Empty,
    Create(CreateRepoRequestView),
    Update(Map<Seq<char>, Option<Seq<char>>>),
}

impl View for RequestBody {
    type V = RequestBodyView;

    open spec fn view(&self) -> RequestBodyView {
        match self {
            RequestBody::Empty => RequestBodyView::Empty,
            RequestBody::Create(request) => RequestBodyView::Create(request@),
            RequestBody::Update(request) => RequestBodyView::Update(request@),
        }
    }
}

/// One request to the remote API.
#[derive(Debug, PartialEq, Eq)]
pub struct ApiRequest {
    pub method: Method,
    pub url: String,
    /// The value of the `Authorization` header.
    pub authorization: String,
    /// The value of the `User-Agent` header.
    pub user_agent: String,
    pub body: RequestBody,
    pub expects: ReplyKind,
}

/// What an `ApiRequest` holds.
pub struct ApiRequestView {
    pub method: Method,
    pub url: Seq<char>,
    pub authorization: Seq<char>,
    pub user_agent: Seq<char>,
    pub body: RequestBodyView,
    pub expects: ReplyKind,
}

impl View for ApiRequest {
    type V = ApiRequestView;

    open spec fn view(&self) -> ApiRequestView {
        ApiRequestView {
            method: self.method,
            url: self.url@,
            authorization: self.authorization@,
            user_agent: self.user_agent@,
            body: self.body@,
            expects: self.expects,
        }
    }
}

/// The reply to a request, read as the request's `ReplyKind` says.
#[derive(Debug, PartialEq, Eq)]
pub enum ApiReply {
    /// A success that carried a profile: the login of the user that the
    /// token belongs to.
    Profile(String),
    /// A success that carried a list of repositories.
    Repositories(Vec<Repository>),
    /// A success that carried one repository.
    Created(Repository),
    /// A success of which nothing was read.
    Succeeded,
    /// Any status that is no success: the status as the HTTP client writes
    /// it, and the text of the body where it was read.
    Refused { status: String, details: Option<String> },
}

/// What an `ApiReply` holds.
pub enum ApiReplyView {
    Profile(Seq<char>),
    Repositories(Seq<RepositoryView>),
    Created(RepositoryView),
    Succeeded,
    Refused { status: Seq<char>, details: Option<Seq<char>> },
}

impl View for ApiReply {
    type V = ApiReplyView;

    open spec fn view(&self) -> ApiReplyView {
        match self {
            ApiReply::Profile(login) => ApiReplyView::Profile(login@),
            ApiReply::Repositories(repositories) => ApiReplyView::Repositories(
                repositories.deep_view(),
            ),
            ApiReply::Created(repository) => ApiReplyView::Created(repository@),
            ApiReply::Succeeded => ApiReplyView::Succeeded,
            ApiReply::Refused { status, details } => ApiReplyView::Refused {
                status: status@,
                details: match details {
                    Some(text) => Some(text@),
                    None => None,
                },
            },
        }
    }
}

} // verus!
