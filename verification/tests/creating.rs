use github_repo_manager::api::{ApiReply, ApiRequest, Method, ReplyKind, RequestBody};
use github_repo_manager::creating::CreateState;
use github_repo_manager::dialogue::{Effect, Event};
use github_repo_manager::repository::{CreateRepoRequest, Repository, RepositoryManager};

fn body_for(name: &str, description: &str, private: &str) -> CreateRepoRequest {
    let manager = RepositoryManager::new();
    let state = CreateState::Flagging { name: name.to_string(), description: description.to_string() };
    let (state, step) = manager.create_repository("t", state, Event::Input(private.to_string()));
    assert_eq!(state, CreateState::Sending);
    assert!(step.output.is_empty());
    match step.effect {
        Effect::Send(ApiRequest { body: RequestBody::Create(body), .. }) => body,
        other => panic!("expected the request that creates, got {other:?}"),
    }
}

#[test]
fn create_asks_three_things_then_posts() {
    let manager = RepositoryManager::new();
    let (state, step) = manager.create_repository("tok", CreateState::Start, Event::Start);
    assert_eq!(state, CreateState::Naming);
    assert_eq!(step.effect, Effect::Prompt("Введите имя для нового репозитория: ".to_string()));
    let (state, step) = manager.create_repository("tok", state, Event::Input(" demo \n".to_string()));
    assert_eq!(state, CreateState::Describing { name: "demo".to_string() });
    assert_eq!(
        step.effect,
        Effect::Prompt("Введите описание (нажмите Enter, чтобы пропустить): ".to_string())
    );
    let (state, step) =
        manager.create_repository("tok", state, Event::Input("A demo repository\n".to_string()));
    assert_eq!(
        state,
        CreateState::Flagging {
            name: "demo".to_string(),
            description: "A demo repository".to_string()
        }
    );
    assert_eq!(step.effect, Effect::Prompt("Сделать репозиторий приватным? (y/n): ".to_string()));
    let (state, step) = manager.create_repository("tok", state, Event::Input("y\n".to_string()));
    assert_eq!(state, CreateState::Sending);
    assert!(step.output.is_empty());
    assert_eq!(
        step.effect,
        Effect::Send(ApiRequest {
            method: Method::Post,
            url: "https://api.github.com/user/repos".to_string(),
            authorization: "token tok".to_string(),
            user_agent: "github-token-app".to_string(),
            body: RequestBody::Create(CreateRepoRequest {
                name: "demo".to_string(),
                description: Some("A demo repository".to_string()),
                private: true,
            }),
            expects: ReplyKind::NewRepository,
        })
    );
}

#[test]
fn private_flag_is_true_on_y_and_false_otherwise() {
    assert!(body_for("r", "", "y").private);
    assert!(body_for("r", "", " y \n").private);
    for answer in ["n", "", "\n", "yes", "Y", "yy", "д", "1", "true", "y y"] {
        assert!(!body_for("r", "", answer).private);
    }
}

#[test]
fn blank_description_is_absent() {
    assert_eq!(body_for("r", "", "n").description, None);
    assert_eq!(body_for("r", "text", "n").description, Some("text".to_string()));
    let manager = RepositoryManager::new();
    let (state, _) = manager.create_repository(
        "t",
        CreateState::Describing { name: "r".to_string() },
        Event::Input("   \n".to_string()),
    );
    assert_eq!(
        state,
        CreateState::Flagging { name: "r".to_string(), description: String::new() }
    );
}

#[test]
fn created_repository_prints_its_address() {
    let manager = RepositoryManager::new();
    let reply = ApiReply::Created(Repository {
        id: 5,
        name: "demo".to_string(),
        description: None,
        html_url: "https://github.com/me/demo".to_string(),
    });
    let (state, step) = manager.create_repository("t", CreateState::Sending, Event::Reply(reply));
    assert_eq!(state, CreateState::Done);
    assert_eq!(step.effect, Effect::Finish);
    assert_eq!(step.output, vec!["Репозиторий успешно создан: https://github.com/me/demo"]);
}

#[test]
fn refused_creation_prints_status_and_body() {
    let manager = RepositoryManager::new();
    let reply = ApiReply::Refused {
        status: "422 Unprocessable Entity".to_string(),
        details: Some("{\"message\":\"name already exists\"}".to_string()),
    };
    let (state, step) = manager.create_repository("t", CreateState::Sending, Event::Reply(reply));
    assert_eq!(state, CreateState::Done);
    assert_eq!(step.effect, Effect::Finish);
    assert_eq!(
        step.output,
        vec![
            "Ошибка при создании репозитория: 422 Unprocessable Entity",
            "Детали ошибки: {\"message\":\"name already exists\"}",
        ]
    );
    let reply = ApiReply::Refused { status: "403 Forbidden".to_string(), details: None };
    let (_, step) = manager.create_repository("t", CreateState::Sending, Event::Reply(reply));
    assert_eq!(step.output, vec!["Ошибка при создании репозитория: 403 Forbidden"]);
}

#[test]
fn create_ends_silently_on_what_it_does_not_await() {
    let manager = RepositoryManager::new();
    let (state, step) =
        manager.create_repository("t", CreateState::Sending, Event::Reply(ApiReply::Succeeded));
    assert_eq!(state, CreateState::Done);
    assert!(step.output.is_empty());
    let (state, step) = manager.create_repository("t", CreateState::Naming, Event::Start);
    assert_eq!(state, CreateState::Done);
    assert_eq!(step.effect, Effect::Finish);
    assert!(step.output.is_empty());
}
