use github_repo_manager::ui::{get_input, Command, Menu};

#[test]
fn menu_shows_heading_and_six_choices() {
    let lines = Menu::new().display();
    assert_eq!(
        lines,
        vec![
            "\n=== GitHub Repository Manager ===",
            "1. Показать все репозитории",
            "2. Создать новый репозиторий",
            "3. Обновить репозиторий",
            "4. Удалить репозиторий",
            "5. Изменить токен",
            "6. Выход",
        ]
    );
}

#[test]
fn menu_prompt_names_the_range() {
    assert_eq!(Menu::new().prompt(), "Выберите действие (1-6): ");
}

#[test]
fn answers_lose_surrounding_white_space() {
    assert_eq!(get_input("  y \r\n"), "y");
    assert_eq!(get_input("\n"), "");
    assert_eq!(get_input(""), "");
    assert_eq!(get_input("\t a b \u{a0}\u{3000}"), "a b");
    assert_eq!(get_input("описание\n"), "описание");
}

#[test]
fn answers_keep_what_is_no_white_space() {
    assert_eq!(get_input("\u{200b}x\u{200b}"), "\u{200b}x\u{200b}");
    assert_eq!(get_input("x\u{1f}"), "x\u{1f}");
}

#[test]
fn each_of_six_choices_has_its_command() {
    let menu = Menu::new();
    assert_eq!(menu.command("1\n"), Command::List);
    assert_eq!(menu.command("2\n"), Command::Create);
    assert_eq!(menu.command(" 3\n"), Command::Update);
    assert_eq!(menu.command("4"), Command::Delete);
    assert_eq!(menu.command("5\r\n"), Command::RefreshToken);
    assert_eq!(menu.command("6\n"), Command::Exit);
}

#[test]
fn other_lines_are_unknown_commands() {
    let menu = Menu::new();
    for line in ["", "\n", "0", "7", "01", "+1", "1 2", "list", "١"] {
        assert_eq!(menu.command(line), Command::Unknown);
    }
}

#[test]
fn notices_follow_exit_and_unknown_only() {
    let menu = Menu::new();
    assert_eq!(menu.notice(Command::Exit), vec!["Выход из программы."]);
    assert_eq!(
        menu.notice(Command::Unknown),
        vec!["Неверный выбор. Пожалуйста, попробуйте снова."]
    );
    assert!(menu.notice(Command::List).is_empty());
    assert!(menu.notice(Command::RefreshToken).is_empty());
}
