use rtool::command::{Command, CommandHandler};
use rtool::types::AppError;

fn read(line: &str) -> Command {
    CommandHandler::read_user_command(line).unwrap()
}

#[test]
fn exit_and_quit_end_the_session() {
    assert_eq!(read("exit"), Command::Exit);
    assert_eq!(read("quit\n"), Command::Exit);
    assert_eq!(read("  EXIT \r\n"), Command::Exit);
    assert_eq!(read("Quit"), Command::Exit);
    assert_eq!(read("exit now"), Command::Prompt(String::from("exit now")));
}

#[test]
fn list_tools_shows_the_tools() {
    assert_eq!(read("list tools"), Command::ListTools);
    assert_eq!(read(" List Tools\n"), Command::ListTools);
    assert_eq!(read("list  tools"), Command::Prompt(String::from("list  tools")));
}

#[test]
fn load_names_a_conversation() {
    assert_eq!(read("load abc"), Command::LoadConversation(String::from("abc")));
    assert_eq!(read("LOAD 1234-56\n"), Command::LoadConversation(String::from("1234-56")));
    assert_eq!(read("load a b"), Command::LoadConversation(String::from("a b")));
    assert_eq!(read("load  x"), Command::LoadConversation(String::from(" x")));
    assert_eq!(read("Load x"), Command::LoadConversation(String::from("x")));
    assert_eq!(read("  load\tx "), Command::Prompt(String::from("load\tx")));
}

#[test]
fn line_that_only_begins_with_load_is_a_prompt() {
    assert_eq!(read("loading data\n"), Command::Prompt(String::from("loading data")));
    assert_eq!(read("loaded it"), Command::Prompt(String::from("loaded it")));
    assert_eq!(read("loading"), Command::Prompt(String::from("loading")));
    assert_eq!(read("LOADING data"), Command::Prompt(String::from("LOADING data")));
    assert_eq!(read("loa d"), Command::Prompt(String::from("loa d")));
    assert_eq!(read("reload x"), Command::Prompt(String::from("reload x")));
}

#[test]
fn load_without_an_id_is_an_error() {
    for line in ["load", "load\n", "  LOAD  ", "Load \t"] {
        match CommandHandler::read_user_command(line) {
            Err(AppError::CommandError(message)) => assert_eq!(message, "Invalid load command"),
            other => panic!("unexpected result: {:?}", other),
        }
    }
}

#[test]
fn any_other_line_is_a_prompt() {
    assert_eq!(read("  What do you seek?\n"), Command::Prompt(String::from("What do you seek?")));
    assert_eq!(read("\n"), Command::Prompt(String::new()));
    assert_eq!(read("\u{a0}hi\u{2003}"), Command::Prompt(String::from("hi")));
    assert_eq!(read("a load b"), Command::Prompt(String::from("a load b")));
}

#[test]
fn only_the_letter_y_is_a_yes() {
    assert!(CommandHandler::is_approval("y"));
    assert!(CommandHandler::is_approval("Y\n"));
    assert!(CommandHandler::is_approval("  y \r\n"));
    assert!(!CommandHandler::is_approval("yes"));
    assert!(!CommandHandler::is_approval("n"));
    assert!(!CommandHandler::is_approval(""));
    assert!(!CommandHandler::is_approval("\n"));
    assert!(!CommandHandler::is_approval("y y"));
}
