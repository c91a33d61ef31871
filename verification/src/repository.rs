//! Repositories as the remote API describes them, and the requests that
//! create and change them.

use crate::api::{ApiRequest, ApiRequestView, Method, ReplyKind, RequestBody, RequestBodyView};
use crate::json::{insert_text, members, new_object, no_members, object_is_empty};
use crate::text::{decimal, decimal_string, join, join3, no_lines, push_line, same_text};
use vstd::prelude::*;
use vstd::string::*;

verus! {

/// A repository as the remote API describes it.
#[derive(Debug, Clone, PartialEq, Eq)]
pub struct Repository {
    pub id: u64,
    pub name: String,
    pub description: Option<String>,
    pub html_url: String,
}

/// What a `Repository` holds.
pub struct RepositoryView {
    pub id: u64,
    pub name: Seq<char>,
    pub description: Option<Seq<char>>,
    pub html_url: Seq<char>,
}

impl View for Repository {
    type V = RepositoryView;

    open spec fn view(&self) -> RepositoryView {
        RepositoryView {
            id: self.id,
            name: self.name@,
            description: match self.description {
                Some(text) => Some(text@),
                None => None,
            },
            html_url: self.html_url@,
        }
    }
}

impl DeepView for Repository {
    type V = RepositoryView;

    open spec fn deep_view(&self) -> RepositoryView {
        self@
    }
}

/// The body of the request that creates a repository.
#[derive(Debug, Clone, PartialEq, Eq)]
pub struct CreateRepoRequest {
    pub name: String,
    pub description: Option<String>,
    pub private: bool,
}

/// What a `CreateRepoRequest` holds.
pub struct CreateRepoRequestView {
    pub name: Seq<char>,
    pub description: Option<Seq<char>>,
    pub private: bool,
}

impl View for CreateRepoRequest {
    type V = CreateRepoRequestView;

    open spec fn view(&self) -> CreateRepoRequestView {
        CreateRepoRequestView {
            name: self.name@,
            description: match self.description {
                Some(text) => Some(text@),
                None => None,
            },
            private: self.private,
        }
    }
}

/// The body of the request that changes a repository: the fields to change,
/// each with its new value. One without fields asks for nothing.
#[derive(Debug, PartialEq, Eq)]
pub struct UpdateRequest {
    pub fields: serde_json::Map<String, serde_json::Value>,
}

impl View for UpdateRequest {
    type V = Map<Seq<char>, Option<Seq<char>>>;

    /// Each field with its new text.
    open spec fn view(&self) -> Map<Seq<char>, Option<Seq<char>>> {
        members(self.fields)
    }
}

/// The fields that a new description changes: the description, unless the
/// text is empty, in which case none.
pub open spec fn update_fields(description: Seq<char>) -> Map<Seq<char>, Option<Seq<char>>> {
    if description.len() == 0 {
        no_members()
    } else {
        no_members().insert("description"@, Some(description))
    }
}

impl UpdateRequest {
    /// The request that sets the description to `description`; an empty
    /// text leaves the request without fields.
    pub fn new(description: &str) -> (request: UpdateRequest)
        ensures
            request@ == update_fields(description@),
    {
        let mut fields = new_object();
        if !description.is_empty() {
            insert_text(
                &mut fields,
                String::from_str("description"),
                String::from_str(description),
            );
        }
        UpdateRequest { fields }
    }

    /// Whether the request names no field, and so asks for nothing.
    pub fn is_empty(&self) -> (empty: bool)
        ensures
            empty == (self@ == no_members()),
    {
        object_is_empty(&self.fields)
    }
}

/// Plans the calls to the remote API and words what comes back. It sends
/// nothing itself.
#[derive(Debug, Clone, Copy, PartialEq, Eq, Structural)]
pub struct RepositoryManager;

/// The value of the `Authorization` header for `token`.
pub open spec fn authorization(token: Seq<char>) -> Seq<char> {
    "token "@ + token
}

/// The address of the repository called `name` of the user whose login is
/// `owner`.
pub open spec fn repository_url(owner: Seq<char>, name: Seq<char>) -> Seq<char> {
    "https://api.github.com/repos/"@ + owner + "/"@ + name
}

/// A request with the headers that every request carries.
pub open spec fn request(
    token: Seq<char>,
    method: Method,
    url: Seq<char>,
    body: RequestBodyView,
    expects: ReplyKind,
) -> ApiRequestView {
    ApiRequestView {
        method,
        url,
        authorization: authorization(token),
        user_agent: "github-token-app"@,
        body,
        expects,
    }
}

/// The request for the profile of the user that `token` belongs to. Its
/// reply gives the login under which that user's repositories are
/// addressed.
pub open spec fn profile_request(token: Seq<char>) -> ApiRequestView {
    request(
        token,
        Method::Get,
        "https://api.github.com/user"@,
        RequestBodyView::Empty,
        ReplyKind::Profile,
    )
}

/// The line that reports that the request for the profile was refused.
pub open spec fn profile_failure(status: Seq<char>) -> Seq<char> {
    "Ошибка при получении профиля пользователя: "@ + status
}

/// The request for the caller's repositories.
pub open spec fn list_request(token: Seq<char>) -> ApiRequestView {
    request(
        token,
        Method::Get,
        "https://api.github.com/user/repos"@,
        RequestBodyView::Empty,
        ReplyKind::RepositoryList,
    )
}

/// The body that creates a repository from the three answers of the user:
/// an empty description counts as none, and the repository is private
/// exactly if the last answer is `y`.
pub open spec fn create_body(name: Seq<char>, description: Seq<char>, private: Seq<char>) ->
    CreateRepoRequestView {
    CreateRepoRequestView {
        name,
        description: if description.len() == 0 {
            None
        } else {
            Some(description)
        },
        private: private == "y"@,
    }
}

/// The request that creates a repository from the three answers of the user.
pub open spec fn create_request(
    token: Seq<char>,
    name: Seq<char>,
    description: Seq<char>,
    private: Seq<char>,
) -> ApiRequestView {
    request(
        token,
        Method::Post,
        "https://api.github.com/user/repos"@,
        RequestBodyView::Create(create_body(name, description, private)),
        ReplyKind::NewRepository,
    )
}

/// The request that changes `fields` of the repository called `name` of
/// the user whose login is `owner`.
pub open spec fn patch_request(
    token: Seq<char>,
    owner: Seq<char>,
    name: Seq<char>,
    fields: Map<Seq<char>, Option<Seq<char>>>,
) -> ApiRequestView {
    request(
        token,
        Method::Patch,
        repository_url(owner, name),
        RequestBodyView::Update(fields),
        ReplyKind::Outcome,
    )
}

/// The request that deletes the repository called `name` of the user whose
/// login is `owner`.
pub open spec fn delete_request(token: Seq<char>, owner: Seq<char>, name: Seq<char>) ->
    ApiRequestView {
    request(
        token,
        Method::Delete,
        repository_url(owner, name),
        RequestBodyView::Empty,
        ReplyKind::Outcome,
    )
}

/// The names of `repositories`, in order.
pub open spec fn repository_names(repositories: Seq<RepositoryView>) -> Seq<Seq<char>> {
    Seq::new(repositories.len(), |i: int| repositories[i].name)
}

/// The entries of a picker: each name behind its ordinal, counted from one.
pub open spec fn picker_entries(names: Seq<Seq<char>>) -> Seq<Seq<char>> {
    Seq::new(names.len(), |i: int| decimal((i + 1) as nat) + ". "@ + names[i])
}

/// The lines that report a refusal: the status behind `heading`, and the
/// text of the body where it was read.
pub open spec fn failure_lines(
    heading: Seq<char>,
    status: Seq<char>,
    details: Option<Seq<char>>,
) -> Seq<Seq<char>> {
    match details {
        Some(text) => seq![heading + status, "Детали ошибки: "@ + text],
        None => seq![heading + status],
    }
}

/// The names of `repositories`, in order.
pub fn names_of(repositories: &Vec<Repository>) -> (names: Vec<String>)
    ensures
        names.deep_view() == repository_names(repositories.deep_view()),
{
    let mut names: Vec<String> = Vec::new();
    let mut at: usize = 0;
    while at < repositories.len()
        invariant
            at <= repositories.len(),
            names.len() == at,
            forall|i: int| 0 <= i < at ==> names[i]@ == repositories[i].name@,
        decreases repositories.len() - at,
    {
        names.push(repositories[at].name.clone());
        at += 1;
    }
    assert(names.deep_view() =~= repository_names(repositories.deep_view()));
    names
}

/// The lines that report a refusal.
pub fn report_failure(heading: &str, status: &str, details: &Option<String>) -> (lines: Vec<
    String,
>)
    ensures
        lines.deep_view() == failure_lines(heading@, status@, details.deep_view()),
{
    let mut lines = no_lines();
    push_line(&mut lines, join(heading, status));
    match details {
        Some(text) => {
            push_line(&mut lines, join("Детали ошибки: ", text.as_str()));
        },
        None => {},
    }
    assert(lines.deep_view() =~= failure_lines(heading@, status@, details.deep_view()));
    lines
}

impl RepositoryManager {
    pub fn new() -> (manager: RepositoryManager)
        ensures
            manager == RepositoryManager,
    {
        RepositoryManager
    }

    /// A request with the headers that every request carries.
    fn request(
        &self,
        token: &str,
        method: Method,
        url: String,
        body: RequestBody,
        expects: ReplyKind,
    ) -> (made: ApiRequest)
        ensures
            made@ == request(token@, method, url@, body@, expects),
    {
        ApiRequest {
            method,
            url,
            authorization: join("token ", token),
            user_agent: String::from_str("github-token-app"),
            body,
            expects,
        }
    }

    /// The address of the repository called `name` of the user whose login
    /// is `owner`.
    fn repository_url(&self, owner: &str, name: &str) -> (url: String)
        ensures
            url@ == repository_url(owner@, name@),
    {
        let mut url = join3("https://api.github.com/repos/", owner, "/");
        url.append(name);
        url
    }

    /// The request for the profile of the user that `token` belongs to.
    pub fn profile_request(&self, token: &str) -> (made: ApiRequest)
        ensures
            made@ == profile_request(token@),
    {
        self.request(
            token,
            Method::Get,
            String::from_str("https://api.github.com/user"),
            RequestBody::Empty,
            ReplyKind::Profile,
        )
    }

    /// The request for the caller's repositories.
    pub fn list_request(&self, token: &str) -> (made: ApiRequest)
        ensures
            made@ == list_request(token@),
    {
        self.request(
            token,
            Method::Get,
            String::from_str("https://api.github.com/user/repos"),
            RequestBody::Empty,
            ReplyKind::RepositoryList,
        )
    }

    /// The request that creates a repository from the three answers of the
    /// user.
    pub fn create_request(
        &self,
        token: &str,
        name: String,
        description: String,
        private: &str,
    ) -> (made: ApiRequest)
        ensures
            made@ == create_request(token@, name@, description@, private@),
    {
        let body = CreateRepoRequest {
            name,
            private: same_text(private, "y"),
            description: if description.as_str().is_empty() {
                None
            } else {
                Some(description)
            },
        };
        self.request(
            token,
            Method::Post,
            String::from_str("https://api.github.com/user/repos"),
            RequestBody::Create(body),
            ReplyKind::NewRepository,
        )
    }

    /// The request that changes `fields` of the repository called `name` of
    /// the user whose login is `owner`.
    pub fn patch_request(
        &self,
        token: &str,
        owner: &str,
        name: &str,
        fields: UpdateRequest,
    ) -> (made: ApiRequest)
        ensures
            made@ == patch_request(token@, owner@, name@, fields@),
    {
        self.request(
            token,
            Method::Patch,
            self.repository_url(owner, name),
            RequestBody::Update(fields),
            ReplyKind::Outcome,
        )
    }

    /// The request that deletes the repository called `repo_name` of the
    /// user whose login is `owner`.
    pub fn delete_single_repository(&self, token: &str, owner: &str, repo_name: &str) -> (made:
        ApiRequest)
        ensures
            made@ == delete_request(token@, owner@, repo_name@),
    {
        self.request(
            token,
            Method::Delete,
            self.repository_url(owner, repo_name),
            RequestBody::Empty,
            ReplyKind::Outcome,
        )
    }

    /// The entries of a picker over `names`.
    pub fn picker_entries(&self, names: &Vec<String>) -> (lines: Vec<String>)
        ensures
            lines.deep_view() == picker_entries(names.deep_view()),
    {
        let mut lines: Vec<String> = Vec::new();
        let mut at: usize = 0;
        while at < names.len()
            invariant
                at <= names.len(),
                lines.len() == at,
                forall|i: int|
                    0 <= i < at ==> lines[i]@ == decimal((i + 1) as nat) + ". "@ + names[i]@,
            decreases names.len() - at,
        {
            let ordinal = decimal_string(at + 1);
            lines.push(join3(ordinal.as_str(), ". ", names[at].as_str()));
            at += 1;
        }
        assert(lines.deep_view() =~= picker_entries(names.deep_view()));
        lines
    }
}

} // verus!
