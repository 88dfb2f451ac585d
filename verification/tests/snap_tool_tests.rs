use rtool::registry::Tool;
use rtool::snap_tool::{SnapTool, SourceFile};
use rtool::types::AppError;

fn file(path: &str, contents: &str) -> SourceFile {
    SourceFile { path: path.to_string(), contents: contents.to_string() }
}

// Stands for the project's directory: the files by their paths.
fn project() -> Vec<(&'static str, &'static str)> {
    vec![
        ("src/main.rs", "fn main() {}\n"),
        ("src/types.rs", "pub struct Message;\n"),
        ("src/notes.txt", "not a source"),
        ("src/tools/shell_tool.rs", "pub struct ShellTool;\n"),
        ("src/tools/.rs", "hidden"),
        ("proc_macro_crate/src/lib.rs", "extern crate proc_macro;\n"),
    ]
}

fn sources(project: &[(&str, &str)]) -> Vec<SourceFile> {
    let mut shown = Vec::new();
    for (path, contents) in project {
        if let Some(name) = SnapTool::source_name(path) {
            shown.push(SourceFile { path: name, contents: contents.to_string() });
        }
    }
    shown
}

#[test]
fn test_get_snapshot() {
    let cargo = "[package]\nname = \"rtool\"\n";
    let proc_macro_cargo = "[package]\nname = \"proc_macro_crate\"\n";
    let snapshot = SnapTool::project_snapshot(cargo, proc_macro_cargo, &sources(&project()));
    assert!(snapshot.contains("[package]"));
    assert!(snapshot.contains("name = \"rtool\""));
    assert!(snapshot.contains("File: src/types.rs"));
}

#[test]
fn snapshot_begins_with_the_manifests_and_shows_each_source_once() {
    let snapshot = SnapTool::project_snapshot("T", "T2", &sources(&project()));
    assert_eq!(
        snapshot,
        "File: Cargo.toml\nT\n\nFile: proc_macro_crate/Cargo.toml\nT2\n\n\
         File: src/main.rs\nfn main() {}\n\n\n\
         File: src/types.rs\npub struct Message;\n\n\n\
         File: src/tools/shell_tool.rs\npub struct ShellTool;\n\n\n\
         File: proc_macro_crate/src/lib.rs\nextern crate proc_macro;\n\n\n"
    );
    assert_eq!(
        SnapTool::project_snapshot("", "", &Vec::new()),
        "File: Cargo.toml\n\n\nFile: proc_macro_crate/Cargo.toml\n\n\n"
    );
}

#[test]
fn only_rust_sources_are_shown() {
    for path in ["a.rs", "src/a.rs", "src/tools/b.c.rs", "..rs", "x/..rs", "src/a .rs"] {
        assert_eq!(SnapTool::source_name(path), Some(path.to_string()));
        assert_eq!(std::path::Path::new(path).extension().and_then(|e| e.to_str()), Some("rs"));
    }
    for path in ["", "rs", ".rs", "src/.rs", "a.rs.txt", "a.RS", "ars", "src/a.r", "Cargo.toml", "a.rs/"] {
        assert_eq!(SnapTool::source_name(path), None);
    }
}

#[test]
fn snapshot_is_the_sections_in_their_order() {
    let files = vec![file("Cargo.toml", "[package]"), file("main.rs", "fn main() {}\n")];
    assert_eq!(
        SnapTool::create_project_snapshot(&files),
        "File: Cargo.toml\n[package]\n\nFile: main.rs\nfn main() {}\n\n\n"
    );
    assert_eq!(SnapTool::create_project_snapshot(&Vec::new()), "");
}

#[test]
fn snapshot_errors_say_what_failed() {
    match SnapTool::read_error("No such file or directory (os error 2)") {
        AppError::SerdeJsonError(message) => {
            assert_eq!(message, "Error reading file: No such file or directory (os error 2)")
        }
        other => panic!("unexpected error: {:?}", other),
    }
    assert_eq!(
        SnapTool::write_error("disk full").to_string(),
        "Serialization/Deserialization error: Error writing to file: disk full"
    );
}

#[test]
fn snap_tool_describes_itself() {
    assert_eq!(SnapTool.name(), "snap_tool");
    assert_eq!(
        SnapTool.description(),
        "Return the formatted source code of the current project, including Cargo.toml and all .rs files"
    );
    match SnapTool.parameters() {
        rtool::json::Json::Object(members) => {
            assert_eq!(members[0].key, "type");
            assert_eq!(members[0].value, rtool::json::Json::String(String::from("object")));
            assert_eq!(members[1].key, "properties");
            assert_eq!(members[1].value, rtool::json::Json::Object(Vec::new()));
        }
        other => panic!("unexpected schema: {:?}", other),
    }
}
