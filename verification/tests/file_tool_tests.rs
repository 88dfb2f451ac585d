use rtool::file_tool::{
    delete_line, insert_line, update_line, FileAction, FileOpType, FileOperation, FileOutcome,
    FileTool, FileToolInput,
};
use rtool::registry::Tool;
use rtool::types::AppError;
use std::collections::BTreeMap;

// Stands for the disk: the files by their paths.
fn perform(files: &mut BTreeMap<String, String>, action: &FileAction) -> FileOutcome {
    match action {
        FileAction::Write { path, content } => {
            files.insert(path.clone(), content.clone());
            FileOutcome::Done
        }
        FileAction::Remove { path } => match files.remove(path) {
            Some(_) => FileOutcome::Done,
            None => FileOutcome::Failed(AppError::IOError(String::from("No such file"))),
        },
        FileAction::ReadLines { path } => match files.get(path) {
            Some(content) => FileOutcome::Lines(content.lines().map(String::from).collect()),
            None => FileOutcome::Failed(AppError::IOError(String::from("No such file"))),
        },
        FileAction::Finished(_) => panic!("a finished run asks for nothing"),
    }
}

fn execute(
    files: &mut BTreeMap<String, String>,
    operations: Vec<FileOperation>,
) -> Result<String, AppError> {
    let (mut run, mut action) = FileTool.execute(FileToolInput { operations });
    loop {
        if let FileAction::Finished(result) = action {
            assert!(!run.is_waiting());
            return result;
        }
        assert!(run.is_waiting());
        assert_eq!(run.is_reading(), matches!(action, FileAction::ReadLines { .. }));
        let outcome = perform(files, &action);
        action = run.resume(outcome);
    }
}

fn operation(op: FileOpType, path: &str, content: Option<&str>, line: Option<usize>) -> FileOperation {
    FileOperation { op, file_path: path.to_string(), content: content.map(String::from), line }
}

fn create_file(files: &mut BTreeMap<String, String>, path: &str, content: &str) -> Result<String, AppError> {
    execute(files, vec![operation(FileOpType::Create, path, Some(content), None)])
}

fn lines(content: &str) -> Vec<String> {
    content.lines().map(String::from).collect()
}

#[test]
fn test_create_file() {
    let test_file = "test_create.txt";
    let mut files = BTreeMap::new();

    create_file(&mut files, test_file, "New file content").unwrap();
    let content = files.get(test_file).unwrap();
    assert_eq!(content, "New file content");
}

#[test]
fn test_delete_file() {
    let test_file = "test_delete.txt";
    let mut files = BTreeMap::new();
    create_file(&mut files, test_file, "To be deleted").unwrap();

    execute(&mut files, vec![operation(FileOpType::Delete, test_file, None, None)]).unwrap();
    let exists = files.contains_key(test_file);
    assert!(!exists);
}

#[test]
fn test_insert_line() {
    let test_file = "test_insert_line.txt";
    let mut files = BTreeMap::new();
    create_file(&mut files, test_file, "First line\nSecond line").unwrap();

    execute(
        &mut files,
        vec![operation(FileOpType::InsertLine, test_file, Some("Inserted line"), Some(2))],
    )
    .unwrap();
    let content = files.get(test_file).unwrap();
    assert_eq!(content, "First line\nInserted line\nSecond line\n");
    assert_eq!(
        insert_line(&lines("First line\nSecond line"), 2, "Inserted line"),
        "First line\nInserted line\nSecond line\n"
    );
}

#[test]
fn test_delete_line() {
    let test_file = "test_delete_line.txt";
    let mut files = BTreeMap::new();
    create_file(&mut files, test_file, "First line\nSecond line\nThird line").unwrap();

    execute(&mut files, vec![operation(FileOpType::DeleteLine, test_file, None, Some(2))]).unwrap();
    let content = files.get(test_file).unwrap();
    assert_eq!(content, "First line\nThird line\n");
    assert_eq!(
        delete_line(&lines("First line\nSecond line\nThird line"), 2),
        "First line\nThird line\n"
    );
}

#[test]
fn test_update_line() {
    let test_file = "test_update_line.txt";
    let mut files = BTreeMap::new();
    create_file(&mut files, test_file, "First line\nSecond line").unwrap();

    execute(
        &mut files,
        vec![operation(FileOpType::UpdateLine, test_file, Some("Updated line"), Some(2))],
    )
    .unwrap();
    let content = files.get(test_file).unwrap();
    assert_eq!(content, "First line\nUpdated line\n");
    assert_eq!(
        update_line(&lines("First line\nSecond line"), 2, "Updated line"),
        "First line\nUpdated line\n"
    );
}

#[test]
fn inserting_at_the_ends() {
    let two = lines("a\nb");
    assert_eq!(insert_line(&two, 1, "x"), "x\na\nb\n");
    assert_eq!(insert_line(&two, 3, "x"), "a\nb\nx\n");
    assert_eq!(insert_line(&two, 9, "x"), "a\nb\nx\n");
    assert_eq!(insert_line(&two, usize::MAX, "x"), "a\nb\nx\n");
    assert_eq!(insert_line(&two, 0, "x"), "a\nb\n");
    assert_eq!(insert_line(&Vec::new(), 1, "x"), "x\n");
    assert_eq!(insert_line(&Vec::new(), 0, "x"), "");
}

#[test]
fn deleting_and_updating_a_line_that_is_not_there() {
    let two = lines("a\nb");
    assert_eq!(delete_line(&two, 0), "a\nb\n");
    assert_eq!(delete_line(&two, 3), "a\nb\n");
    assert_eq!(delete_line(&two, 1), "b\n");
    assert_eq!(delete_line(&Vec::new(), 1), "");
    assert_eq!(update_line(&two, 0, "x"), "a\nb\n");
    assert_eq!(update_line(&two, 3, "x"), "a\nb\n");
    assert_eq!(update_line(&two, 1, "x"), "x\nb\n");
}

#[test]
fn operations_run_in_their_order_and_end_with_the_message() {
    let mut files = BTreeMap::new();
    let result = execute(
        &mut files,
        vec![
            operation(FileOpType::Create, "a.txt", Some("one\ntwo"), None),
            operation(FileOpType::InsertLine, "a.txt", Some("zero"), Some(1)),
            operation(FileOpType::UpdateLine, "a.txt", Some("TWO"), Some(3)),
            operation(FileOpType::DeleteLine, "a.txt", None, Some(2)),
            operation(FileOpType::Create, "b.txt", Some(""), None),
            operation(FileOpType::Delete, "b.txt", None, None),
        ],
    );
    assert_eq!(result.unwrap(), "File operations completed successfully.");
    assert_eq!(files.get("a.txt").unwrap(), "zero\nTWO\n");
    assert!(!files.contains_key("b.txt"));
    assert_eq!(execute(&mut files, Vec::new()).unwrap(), "File operations completed successfully.");
}

fn command_error(result: Result<String, AppError>) -> String {
    match result {
        Err(AppError::CommandError(message)) => message,
        other => panic!("unexpected result: {:?}", other),
    }
}

#[test]
fn operation_that_lacks_what_it_needs_stops_the_run() {
    let mut files = BTreeMap::new();
    files.insert(String::from("a.txt"), String::from("x"));
    let result = execute(
        &mut files,
        vec![
            operation(FileOpType::Create, "b.txt", Some("made"), None),
            operation(FileOpType::Create, "c.txt", None, None),
            operation(FileOpType::Delete, "a.txt", None, None),
        ],
    );
    assert_eq!(command_error(result), "Missing file content for create operation");
    assert_eq!(files.get("b.txt").unwrap(), "made");
    assert!(files.contains_key("a.txt"));

    let cases = vec![
        (
            operation(FileOpType::InsertLine, "a.txt", None, Some(1)),
            "Missing line content or line number for insert line operation",
        ),
        (
            operation(FileOpType::InsertLine, "a.txt", Some("x"), None),
            "Missing line content or line number for insert line operation",
        ),
        (
            operation(FileOpType::DeleteLine, "a.txt", Some("x"), None),
            "Missing line number for delete line operation",
        ),
        (
            operation(FileOpType::UpdateLine, "a.txt", None, Some(1)),
            "Missing line content or line number for update line operation",
        ),
        (
            operation(FileOpType::UpdateLine, "a.txt", Some("x"), None),
            "Missing line content or line number for update line operation",
        ),
    ];
    for (op, message) in cases {
        assert_eq!(command_error(execute(&mut files, vec![op])), message);
    }
    assert_eq!(files.get("a.txt").unwrap(), "x");
}

#[test]
fn failure_on_the_disk_stops_the_run_with_its_error() {
    let mut files = BTreeMap::new();
    let result = execute(
        &mut files,
        vec![
            operation(FileOpType::DeleteLine, "gone.txt", None, Some(1)),
            operation(FileOpType::Create, "after.txt", Some("x"), None),
        ],
    );
    match result {
        Err(AppError::IOError(message)) => assert_eq!(message, "No such file"),
        other => panic!("unexpected result: {:?}", other),
    }
    assert!(files.is_empty());
}

#[test]
fn file_tool_describes_itself() {
    assert_eq!(FileTool.name(), "file_tool");
    assert_eq!(
        FileTool.description(),
        "Performs file operations such as create, delete, and update on files."
    );
    let text = format!("{:?}", FileTool.parameters());
    for word in ["create", "delete", "insertline", "deleteline", "updateline", "file_path", "required"] {
        assert!(text.contains(word));
    }
}
