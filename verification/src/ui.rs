//! The menu of the interactive shell: what it shows and how it reads a
//! choice.

use crate::text::{no_lines, push_line, same_text, trim, trimmed};
use vstd::prelude::*;
use vstd::string::*;

verus! {

/// The fixed menu of the shell.
#[derive(Debug, Clone, Copy, PartialEq, Eq, Structural)]
pub struct Menu;

/// What a line typed at the menu asks for.
#[derive(Debug, Clone, Copy, PartialEq, Eq, Structural)]
pub enum Command {
    List,
    Create,
    Update,
    Delete,
    RefreshToken,
    Exit,
    /// The line is none of the six choices.
    Unknown,
}

/// The lines of the menu: a heading and the six choices.
pub open spec fn menu_lines() -> Seq<Seq<char>> {
    seq![
        "\n=== GitHub Repository Manager ==="@,
        "1. Показать все репозитории"@,
        "2. Создать новый репозиторий"@,
        "3. Обновить репозиторий"@,
        "4. Удалить репозиторий"@,
        "5. Изменить токен"@,
        "6. Выход"@,
    ]
}

/// The command that an answer at the menu stands for.
pub open spec fn command_of(answer: Seq<char>) -> Command {
    if answer == "1"@ {
        Command::List
    } else if answer == "2"@ {
        Command::Create
    } else if answer == "3"@ {
        Command::Update
    } else if answer == "4"@ {
        Command::Delete
    } else if answer == "5"@ {
        Command::RefreshToken
    } else if answer == "6"@ {
        Command::Exit
    } else {
        Command::Unknown
    }
}

/// What the shell prints once a command is read, before it acts on it:
/// a farewell on `Exit`, a complaint on `Unknown`, nothing otherwise.
pub open spec fn notice_lines(command: Command) -> Seq<Seq<char>> {
    match command {
        Command::Exit => seq!["Выход из программы."@],
        Command::Unknown => seq!["Неверный выбор. Пожалуйста, попробуйте снова."@],
        _ => Seq::empty(),
    }
}

impl Menu {
    pub fn new() -> (menu: Menu)
        ensures
            menu == Menu,
    {
        Menu
    }

    /// The lines of the menu, to be printed in order.
    pub fn display(&self) -> (lines: Vec<String>)
        ensures
            lines.deep_view() == menu_lines(),
    {
        let mut lines = no_lines();
        push_line(&mut lines, String::from_str("\n=== GitHub Repository Manager ==="));
        push_line(&mut lines, String::from_str("1. Показать все репозитории"));
        push_line(&mut lines, String::from_str("2. Создать новый репозиторий"));
        push_line(&mut lines, String::from_str("3. Обновить репозиторий"));
        push_line(&mut lines, String::from_str("4. Удалить репозиторий"));
        push_line(&mut lines, String::from_str("5. Изменить токен"));
        push_line(&mut lines, String::from_str("6. Выход"));
        assert(lines.deep_view() =~= menu_lines());
        lines
    }

    /// The prompt under the menu.
    pub fn prompt(&self) -> (prompt: String)
        ensures
            prompt@ == "Выберите действие (1-6): "@,
    {
        String::from_str("Выберите действие (1-6): ")
    }

    /// Reads the line typed under the menu: the white space around it does
    /// not count, and anything but one of `1` to `6` is `Unknown`.
    pub fn command(&self, line: &str) -> (command: Command)
        ensures
            command == command_of(trimmed(line@)),
    {
        let answer = get_input(line);
        if same_text(answer.as_str(), "1") {
            Command::List
        } else if same_text(answer.as_str(), "2") {
            Command::Create
        } else if same_text(answer.as_str(), "3") {
            Command::Update
        } else if same_text(answer.as_str(), "4") {
            Command::Delete
        } else if same_text(answer.as_str(), "5") {
            Command::RefreshToken
        } else if same_text(answer.as_str(), "6") {
            Command::Exit
        } else {
            Command::Unknown
        }
    }

    /// What to print once `command` is read, before acting on it.
    pub fn notice(&self, command: Command) -> (lines: Vec<String>)
        ensures
            lines.deep_view() == notice_lines(command),
    {
        let mut lines = no_lines();
        match command {
            Command::Exit => {
                push_line(&mut lines, String::from_str("Выход из программы."));
            },
            Command::Unknown => {
                push_line(
                    &mut lines,
                    String::from_str("Неверный выбор. Пожалуйста, попробуйте снова."),
                );
            },
            _ => {},
        }
        assert(lines.deep_view() =~= notice_lines(command));
        lines
    }
}

/// The answer that a typed line holds: the line without the white space
/// around it, the line's end included.
pub fn get_input(line: &str) -> (answer: String)
    ensures
        answer@ == trimmed(line@),
{
    trim(line)
}

} // verus!
