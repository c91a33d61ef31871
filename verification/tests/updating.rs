use github_repo_manager::api::{ApiReply, ApiRequest, Method, ReplyKind, RequestBody};
use github_repo_manager::dialogue::{Effect, Event, Step};
use github_repo_manager::repository::{Repository, RepositoryManager, UpdateRequest};
use github_repo_manager::updating::UpdateState;

fn repository(name: &str) -> Repository {
    Repository {
        id: 1,
        name: name.to_string(),
        description: Some("old".to_string()),
        html_url: format!("https://github.com/me/{name}"),
    }
}

fn profile(login: &str) -> ApiReply {
    ApiReply::Profile(login.to_string())
}

fn names(all: &[&str]) -> Vec<String> {
    all.iter().map(|name| name.to_string()).collect()
}

/// Runs the operation on the answers and replies given and returns what was
/// printed and what was sent.
fn run(inputs: &[&str], replies: Vec<ApiReply>) -> (Vec<String>, Vec<String>, Vec<ApiRequest>) {
    let manager = RepositoryManager::new();
    let mut inputs = inputs.iter();
    let mut replies = replies.into_iter();
    let (mut printed, mut prompts, mut sent) = (Vec::new(), Vec::new(), Vec::new());
    let mut state = UpdateState::Start;
    let mut event = Event::Start;
    loop {
        let (next, Step { output, effect }) = manager.update_repository("tok", state, event);
        state = next;
        printed.extend(output);
        event = match effect {
            Effect::Finish => break,
            Effect::Prompt(prompt) => {
                prompts.push(prompt);
                Event::Input(format!("{}\n", inputs.next().expect("an answer")))
            }
            Effect::Send(request) => {
                sent.push(request);
                Event::Reply(replies.next().expect("a reply"))
            }
            other => panic!("unexpected {other:?}"),
        };
    }
    assert_eq!(state, UpdateState::Done);
    (printed, prompts, sent)
}

#[test]
fn update_request_holds_the_description_alone() {
    let request = UpdateRequest::new("new text");
    assert!(!request.is_empty());
    assert_eq!(request.fields.len(), 1);
    assert_eq!(
        request.fields.get("description"),
        Some(&serde_json::Value::String("new text".to_string()))
    );
    assert_eq!(
        serde_json::to_string(&request.fields).unwrap(),
        "{\"description\":\"new text\"}"
    );
}

#[test]
fn update_request_without_text_is_empty() {
    let request = UpdateRequest::new("");
    assert!(request.is_empty());
    assert_eq!(request.fields.len(), 0);
    assert_eq!(request.fields, serde_json::Map::new());
}

#[test]
fn update_patches_the_chosen_repository() {
    let (printed, prompts, sent) = run(
        &["2", "fresh words"],
        vec![
            ApiReply::Repositories(vec![repository("alpha"), repository("beta")]),
            profile("octocat"),
            ApiReply::Succeeded,
        ],
    );
    assert_eq!(
        printed,
        vec![
            "\nВыберите репозиторий для обновления:",
            "1. alpha",
            "2. beta",
            "Репозиторий успешно обновлен!",
        ]
    );
    assert_eq!(
        prompts,
        vec![
            "Введите номер репозитория: ",
            "Введите новое описание для beta (Enter чтобы пропустить): ",
        ]
    );
    assert_eq!(sent.len(), 3);
    assert_eq!(sent[0].method, Method::Get);
    assert_eq!(sent[0].url, "https://api.github.com/user/repos");
    assert_eq!(sent[0].expects, ReplyKind::RepositoryList);
    assert_eq!(
        sent[1],
        ApiRequest {
            method: Method::Get,
            url: "https://api.github.com/user".to_string(),
            authorization: "token tok".to_string(),
            user_agent: "github-token-app".to_string(),
            body: RequestBody::Empty,
            expects: ReplyKind::Profile,
        }
    );
    assert_eq!(
        sent[2],
        ApiRequest {
            method: Method::Patch,
            url: "https://api.github.com/repos/octocat/beta".to_string(),
            authorization: "token tok".to_string(),
            user_agent: "github-token-app".to_string(),
            body: RequestBody::Update(UpdateRequest::new("fresh words")),
            expects: ReplyKind::Outcome,
        }
    );
}

#[test]
fn empty_description_sends_nothing() {
    for blank in ["", " ", "\t"] {
        let (printed, _, sent) =
            run(&["1", blank], vec![ApiReply::Repositories(vec![repository("alpha")])]);
        assert_eq!(sent.len(), 1);
        assert_eq!(sent[0].method, Method::Get);
        assert_eq!(printed.last().unwrap(), "Нет данных для обновления.");
    }
    let manager = RepositoryManager::new();
    for _ in 0..2 {
        let (state, step) = manager.update_repository(
            "tok",
            UpdateState::Describing("alpha".to_string()),
            Event::Input("\n".to_string()),
        );
        assert_eq!(state, UpdateState::Done);
        assert_eq!(step.effect, Effect::Finish);
        assert_eq!(step.output, vec!["Нет данных для обновления."]);
    }
}

#[test]
fn invalid_choice_updates_nothing() {
    for choice in ["0", "3", "-1", "abc", "", "all", "1.5", "2 1", "99999999999999999999"] {
        let (printed, prompts, sent) = run(
            &[choice],
            vec![ApiReply::Repositories(vec![repository("alpha"), repository("beta")])],
        );
        assert_eq!(sent.len(), 1);
        assert_eq!(sent[0].method, Method::Get);
        assert_eq!(prompts.len(), 1);
        assert_eq!(printed.last().unwrap(), "Неверный выбор.");
    }
}

#[test]
fn update_stops_on_refused_or_empty_list() {
    let (printed, prompts, sent) = run(
        &[],
        vec![ApiReply::Refused { status: "401 Unauthorized".to_string(), details: None }],
    );
    assert_eq!(printed, vec!["Ошибка при получении списка репозиториев: 401 Unauthorized"]);
    assert!(prompts.is_empty());
    assert_eq!(sent.len(), 1);
    let (printed, prompts, sent) = run(&[], vec![ApiReply::Repositories(vec![])]);
    assert_eq!(printed, vec!["У вас нет репозиториев для обновления."]);
    assert!(prompts.is_empty());
    assert_eq!(sent.len(), 1);
}

#[test]
fn refused_update_prints_status_and_body() {
    let (printed, _, sent) = run(
        &["1", "text"],
        vec![
            ApiReply::Repositories(vec![repository("alpha")]),
            profile("octocat"),
            ApiReply::Refused {
                status: "404 Not Found".to_string(),
                details: Some("{\"message\":\"Not Found\"}".to_string()),
            },
        ],
    );
    assert_eq!(sent.len(), 3);
    assert_eq!(
        printed[2..],
        [
            "Ошибка при обновлении репозитория: 404 Not Found".to_string(),
            "Детали ошибки: {\"message\":\"Not Found\"}".to_string(),
        ]
    );
}

#[test]
fn update_goes_to_the_login_of_the_profile() {
    for login in ["octocat", "someone-else", "owner", "Org42"] {
        let (_, _, sent) = run(
            &["1", "text"],
            vec![
                ApiReply::Repositories(vec![repository("alpha")]),
                profile(login),
                ApiReply::Succeeded,
            ],
        );
        assert_eq!(sent[2].method, Method::Patch);
        assert_eq!(sent[2].url, format!("https://api.github.com/repos/{login}/alpha"));
    }
}

#[test]
fn refused_profile_changes_nothing() {
    let (printed, _, sent) = run(
        &["1", "text"],
        vec![
            ApiReply::Repositories(vec![repository("alpha")]),
            ApiReply::Refused { status: "401 Unauthorized".to_string(), details: None },
        ],
    );
    assert_eq!(sent.len(), 2);
    assert!(sent.iter().all(|request| request.method == Method::Get));
    assert_eq!(
        printed.last().unwrap(),
        "Ошибка при получении профиля пользователя: 401 Unauthorized"
    );
}

#[test]
fn description_waits_for_the_profile() {
    let manager = RepositoryManager::new();
    let (state, step) = manager.update_repository(
        "tok",
        UpdateState::Describing("alpha".to_string()),
        Event::Input(" new words \n".to_string()),
    );
    assert_eq!(
        state,
        UpdateState::Resolving {
            name: "alpha".to_string(),
            fields: UpdateRequest::new("new words")
        }
    );
    assert!(step.output.is_empty());
    assert_eq!(step.effect, Effect::Send(manager.profile_request("tok")));
}

#[test]
fn update_picker_keeps_names_in_order() {
    let manager = RepositoryManager::new();
    let reply = ApiReply::Repositories(vec![repository("b"), repository("a"), repository("b")]);
    let (state, _) = manager.update_repository("t", UpdateState::Listing, Event::Reply(reply));
    assert_eq!(state, UpdateState::Choosing(names(&["b", "a", "b"])));
    let (state, _) = manager.update_repository("t", state, Event::Input("+3".to_string()));
    assert_eq!(state, UpdateState::Describing("b".to_string()));
}

#[test]
fn update_ends_silently_on_what_it_does_not_await() {
    let manager = RepositoryManager::new();
    let (state, step) =
        manager.update_repository("t", UpdateState::Listing, Event::Reply(ApiReply::Succeeded));
    assert_eq!(state, UpdateState::Done);
    assert!(step.output.is_empty());
    assert_eq!(step.effect, Effect::Finish);
    let (state, step) =
        manager.update_repository("t", UpdateState::Done, Event::Input("1".to_string()));
    assert_eq!(state, UpdateState::Done);
    assert_eq!(step.effect, Effect::Finish);
}
