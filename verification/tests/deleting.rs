use github_repo_manager::api::{ApiReply, ApiRequest, Method, ReplyKind, RequestBody};
use github_repo_manager::deleting::DeleteState;
use github_repo_manager::dialogue::{Effect, Event, Step};
use github_repo_manager::repository::{Repository, RepositoryManager};

fn repository(name: &str) -> Repository {
    Repository {
        id: 1,
        name: name.to_string(),
        description: None,
        html_url: format!("https://github.com/me/{name}"),
    }
}

fn three() -> ApiReply {
    ApiReply::Repositories(vec![repository("alpha"), repository("beta"), repository("gamma")])
}

fn profile() -> ApiReply {
    ApiReply::Profile("octocat".to_string())
}

fn refused(status: &str, details: &str) -> ApiReply {
    ApiReply::Refused { status: status.to_string(), details: Some(details.to_string()) }
}

/// Runs the operation on the answers and replies given and returns what was
/// printed, what was asked and what was sent.
fn run(inputs: &[&str], replies: Vec<ApiReply>) -> (Vec<String>, Vec<String>, Vec<ApiRequest>) {
    let manager = RepositoryManager::new();
    let mut inputs = inputs.iter();
    let mut replies = replies.into_iter();
    let (mut printed, mut prompts, mut sent) = (Vec::new(), Vec::new(), Vec::new());
    let mut state = DeleteState::Start;
    let mut event = Event::Start;
    loop {
        let (next, Step { output, effect }) = manager.delete_repository("tok", state, event);
        state = next;
        printed.extend(output);
        event = match effect {
            Effect::Finish => break,
            Effect::Prompt(prompt) => {
                prompts.push(prompt);
                Event::Input(format!("{}\n", inputs.next().expect("an answer")))
            }
            Effect::Send(request) => {
                sent.push(request);
                Event::Reply(replies.next().expect("a reply"))
            }
            other => panic!("unexpected {other:?}"),
        };
    }
    assert_eq!(state, DeleteState::Done);
    (printed, prompts, sent)
}

fn deletions(sent: &[ApiRequest]) -> Vec<String> {
    sent.iter().filter(|r| r.method == Method::Delete).map(|r| r.url.clone()).collect()
}

#[test]
fn delete_request_names_owner_and_repository() {
    let manager = RepositoryManager::new();
    assert_eq!(
        manager.delete_single_repository("tok", "octocat", "alpha"),
        ApiRequest {
            method: Method::Delete,
            url: "https://api.github.com/repos/octocat/alpha".to_string(),
            authorization: "token tok".to_string(),
            user_agent: "github-token-app".to_string(),
            body: RequestBody::Empty,
            expects: ReplyKind::Outcome,
        }
    );
}

#[test]
fn delete_all_declined_sends_no_delete() {
    let (printed, prompts, sent) = run(&["all", "n"], vec![three()]);
    assert!(deletions(&sent).is_empty());
    assert_eq!(sent.len(), 1);
    assert_eq!(printed.last().unwrap(), "Операция отменена.");
    assert_eq!(
        prompts,
        vec![
            "Введите номер репозитория (или 'all' для удаления всех): ",
            "Вы уверены, что хотите удалить ВСЕ репозитории? (y/n): ",
        ]
    );
}

#[test]
fn delete_all_confirmed_deletes_each_in_order() {
    let (printed, _, sent) = run(
        &["all", "y"],
        vec![three(), profile(), ApiReply::Succeeded, ApiReply::Succeeded, ApiReply::Succeeded],
    );
    assert_eq!(
        deletions(&sent),
        vec![
            "https://api.github.com/repos/octocat/alpha",
            "https://api.github.com/repos/octocat/beta",
            "https://api.github.com/repos/octocat/gamma",
        ]
    );
    assert_eq!(sent.len(), 5);
    assert_eq!(sent[1], RepositoryManager::new().profile_request("tok"));
    assert_eq!(
        printed,
        vec![
            "\nВыберите репозиторий для удаления:",
            "1. alpha",
            "2. beta",
            "3. gamma",
            "Все репозитории успешно удалены!",
        ]
    );
}

#[test]
fn delete_all_goes_on_after_a_refusal() {
    let (printed, _, sent) = run(
        &["all", "y"],
        vec![
            three(),
            profile(),
            ApiReply::Succeeded,
            refused("403 Forbidden", "no"),
            ApiReply::Succeeded,
        ],
    );
    assert_eq!(deletions(&sent).len(), 3);
    assert_eq!(
        printed[4..],
        [
            "Ошибка при удалении репозитория 'beta': 403 Forbidden".to_string(),
            "Детали ошибки: no".to_string(),
            "Все репозитории успешно удалены!".to_string(),
        ]
    );
}

#[test]
fn delete_one_needs_a_y() {
    for answer in ["n", "", "yes", "Y", "all", "1"] {
        let (printed, prompts, sent) = run(&["2", answer], vec![three()]);
        assert!(deletions(&sent).is_empty());
        assert_eq!(printed.last().unwrap(), "Операция отменена.");
        assert_eq!(prompts[1], "Вы уверены, что хотите удалить репозиторий 'beta'? (y/n): ");
    }
    let (printed, _, sent) = run(&["2", " y "], vec![three(), profile(), ApiReply::Succeeded]);
    assert_eq!(deletions(&sent), vec!["https://api.github.com/repos/octocat/beta"]);
    assert_eq!(printed.last().unwrap(), "Репозиторий 'beta' успешно удален!");
    assert_eq!(printed.len(), 5);
}

#[test]
fn refused_single_delete_prints_status_and_body() {
    let (printed, _, _) =
        run(&["1", "y"], vec![three(), profile(), refused("404 Not Found", "{}")]);
    assert_eq!(
        printed[4..],
        [
            "Ошибка при удалении репозитория 'alpha': 404 Not Found".to_string(),
            "Детали ошибки: {}".to_string(),
            "Репозиторий 'alpha' успешно удален!".to_string(),
        ]
    );
}

#[test]
fn deletions_go_to_the_login_of_the_profile() {
    for login in ["octocat", "someone-else", "owner"] {
        let (_, _, sent) = run(
            &["3", "y"],
            vec![three(), ApiReply::Profile(login.to_string()), ApiReply::Succeeded],
        );
        assert_eq!(
            deletions(&sent),
            vec![format!("https://api.github.com/repos/{login}/gamma")]
        );
        let (_, _, sent) = run(
            &["all", "y"],
            vec![
                three(),
                ApiReply::Profile(login.to_string()),
                ApiReply::Succeeded,
                ApiReply::Succeeded,
                ApiReply::Succeeded,
            ],
        );
        assert_eq!(
            deletions(&sent),
            vec![
                format!("https://api.github.com/repos/{login}/alpha"),
                format!("https://api.github.com/repos/{login}/beta"),
                format!("https://api.github.com/repos/{login}/gamma"),
            ]
        );
    }
}

#[test]
fn refused_profile_deletes_nothing() {
    for choice in ["1", "all"] {
        let (printed, _, sent) =
            run(&[choice, "y"], vec![three(), refused("401 Unauthorized", "ignored")]);
        assert!(deletions(&sent).is_empty());
        assert_eq!(sent.len(), 2);
        assert_eq!(
            printed.last().unwrap(),
            "Ошибка при получении профиля пользователя: 401 Unauthorized"
        );
    }
}

#[test]
fn profile_is_asked_only_after_a_y() {
    let declined_one = run(&["1", "n"], vec![three()]);
    let declined_all = run(&["all", "n"], vec![three()]);
    let invalid = run(&["9"], vec![three()]);
    for (_, _, sent) in [declined_one, declined_all, invalid] {
        assert_eq!(sent.len(), 1);
        assert_eq!(sent[0].url, "https://api.github.com/user/repos");
    }
}

#[test]
fn invalid_choice_deletes_nothing() {
    for choice in ["0", "4", "-1", "x", "", "ALL", "All", "al", "all!", "1,2", "٢"] {
        let (printed, prompts, sent) = run(&[choice], vec![three()]);
        assert!(deletions(&sent).is_empty());
        assert_eq!(sent.len(), 1);
        assert_eq!(prompts.len(), 1);
        assert_eq!(printed.last().unwrap(), "Неверный выбор.");
    }
}

#[test]
fn delete_stops_on_refused_or_empty_list() {
    let (printed, prompts, sent) = run(&[], vec![refused("500 Internal Server Error", "x")]);
    assert_eq!(
        printed,
        vec!["Ошибка при получении списка репозиториев: 500 Internal Server Error"]
    );
    assert!(prompts.is_empty());
    assert_eq!(sent.len(), 1);
    let (printed, prompts, _) = run(&[], vec![ApiReply::Repositories(vec![])]);
    assert_eq!(printed, vec!["У вас нет репозиториев для удаления."]);
    assert!(prompts.is_empty());
}

#[test]
fn delete_all_of_one_repository() {
    let (printed, _, sent) = run(
        &["all", "y"],
        vec![ApiReply::Repositories(vec![repository("only")]), profile(), ApiReply::Succeeded],
    );
    assert_eq!(deletions(&sent), vec!["https://api.github.com/repos/octocat/only"]);
    assert_eq!(printed.last().unwrap(), "Все репозитории успешно удалены!");
}

#[test]
fn delete_all_of_none_only_says_so() {
    let manager = RepositoryManager::new();
    let (state, step) = manager.delete_repository(
        "t",
        DeleteState::ConfirmingAll(vec![]),
        Event::Input("y".to_string()),
    );
    assert_eq!(state, DeleteState::Done);
    assert_eq!(step.effect, Effect::Finish);
    assert_eq!(step.output, vec!["Все репозитории успешно удалены!"]);
}

#[test]
fn delete_ends_silently_on_what_it_does_not_await() {
    let manager = RepositoryManager::new();
    let (state, step) =
        manager.delete_repository("t", DeleteState::Listing, Event::Reply(ApiReply::Succeeded));
    assert_eq!(state, DeleteState::Done);
    assert!(step.output.is_empty());
    assert_eq!(step.effect, Effect::Finish);
    let (state, step) = manager.delete_repository(
        "t",
        DeleteState::Choosing(vec!["a".to_string()]),
        Event::Reply(ApiReply::Succeeded),
    );
    assert_eq!(state, DeleteState::Done);
    assert_eq!(step.effect, Effect::Finish);
    assert!(step.output.is_empty());
}
