//! The snapshot tool: it returns the project's source as one text. This module
//! says which files are shown, under which names and in which layout; finding
//! and reading the files is the caller's part.

use crate::json::{object, text, Json, JsonView};
use crate::json_text::{custom_error, error_from_message, error_message, error_text};
use crate::registry::Tool;
use crate::text::{concat2, opt_text, to_chars};
use crate::types::{AppError, AppErrorView};
use vstd::prelude::*;
use vstd::string::*;

verus! {

/// The tool that shows the project's source.
#[derive(Debug)]
pub struct SnapTool;

/// One file of the snapshot: the path under which it is shown, and its text.
#[derive(Debug)]
pub struct SourceFile {
    pub path: String,
    pub contents: String,
}

pub struct SourceFileView {
    pub path: Seq<char>,
    pub contents: Seq<char>,
}

impl View for SourceFile {
    type V = SourceFileView;

    open spec fn view(&self) -> SourceFileView {
        SourceFileView { path: self.path@, contents: self.contents@ }
    }
}

/// The views of `files`, in order.
pub open spec fn files_view(files: Seq<SourceFile>) -> Seq<SourceFileView> {
    Seq::new(files.len(), |i: int| files[i]@)
}

/// How one file is shown: a heading with its path, its text, a blank line.
pub open spec fn file_section(file: SourceFileView) -> Seq<char> {
    "File: "@ + file.path + "\n"@ + file.contents + "\n\n"@
}

/// The snapshot: the sections of the files, in their order.
pub open spec fn snapshot_text(files: Seq<SourceFileView>) -> Seq<char>
    decreases files.len(),
{
    if files.len() == 0 {
        Seq::empty()
    } else {
        snapshot_text(files.drop_last()) + file_section(files.last())
    }
}

/// The snapshot of a project: the manifest of the project, the manifest of
/// its macro crate, then the sources in their order.
pub open spec fn project_text(
    cargo: Seq<char>,
    proc_macro_cargo: Seq<char>,
    sources: Seq<SourceFileView>,
) -> Seq<char> {
    file_section(SourceFileView { path: "Cargo.toml"@, contents: cargo })
        + file_section(
        SourceFileView { path: "proc_macro_crate/Cargo.toml"@, contents: proc_macro_cargo },
    ) + snapshot_text(sources)
}

/// Whether a path names a Rust source: its last part ends in `.rs` and is
/// more than that ending.
pub open spec fn is_rust_source(path: Seq<char>) -> bool {
    &&& path.len() > 3
    &&& path.subrange(path.len() - 3, path.len() as int) == ".rs"@
    &&& path[path.len() - 4] != '/'
}

/// The name under which a file is shown in the snapshot: its path, where it
/// is a Rust source; no other file is shown.
pub open spec fn shown_name(path: Seq<char>) -> Option<Seq<char>> {
    if is_rust_source(path) {
        Some(path)
    } else {
        None
    }
}

/// The error of the snapshot tool for a file that could not be read.
pub open spec fn read_failure(error: Seq<char>) -> AppErrorView {
    AppErrorView::SerdeJsonError(error_text(custom_error("Error reading file: "@ + error)))
}

/// The error of the snapshot tool for a snapshot that could not be written.
pub open spec fn write_failure(error: Seq<char>) -> AppErrorView {
    AppErrorView::SerdeJsonError(error_text(custom_error("Error writing to file: "@ + error)))
}

/// The schema of the snapshot tool's arguments: an object without properties.
pub open spec fn snap_parameters() -> JsonView {
    object().with("type"@, text("object"@)).with("properties"@, object())
}

impl Tool for SnapTool {
    open spec fn name_spec(&self) -> Seq<char> {
        "snap_tool"@
    }

    open spec fn description_spec(&self) -> Seq<char> {
        "Return the formatted source code of the current project, including Cargo.toml and all .rs files"@
    }

    open spec fn parameters_spec(&self) -> JsonView {
        snap_parameters()
    }

    fn name(&self) -> &'static str {
        "snap_tool"
    }

    fn description(&self) -> &'static str {
        "Return the formatted source code of the current project, including Cargo.toml and all .rs files"
    }

    fn parameters(&self) -> Json {
        Json::object().with("type", Json::text("object")).with("properties", Json::object())
    }
}

impl SnapTool {
    /// The name under which the file at `path` is shown in the snapshot;
    /// `None` for a file that the snapshot leaves out.
    pub fn source_name(path: &str) -> (r: Option<String>)
        ensures
            opt_text(r) == shown_name(path@),
    {
        let v = to_chars(path);
        let n = v.len();
        proof {
            reveal_strlit(".rs");
        }
        if n > 3 && v[n - 3] == '.' && v[n - 2] == 'r' && v[n - 1] == 's' && v[n - 4] != '/' {
            assert(path@.subrange(n - 3, n as int) =~= ".rs"@);
            Some(path.to_string())
        } else {
            if n > 3 && v[n - 4] != '/' {
                let ghost end = path@.subrange(n - 3, n as int);
                assert(end[0] == v@[n - 3] && end[1] == v@[n - 2] && end[2] == v@[n - 1]);
            }
            None
        }
    }

    /// Lays out the snapshot of a project from the text of its manifest, the
    /// text of the manifest of its macro crate, and its sources: the text that
    /// the tool returns and that is kept as the project's state.
    pub fn project_snapshot(cargo: &str, proc_macro_cargo: &str, sources: &Vec<SourceFile>) -> (r:
        String)
        ensures
            r@ == project_text(cargo@, proc_macro_cargo@, files_view(sources@)),
    {
        let mut snapshot = "File: ".to_string();
        snapshot.append("Cargo.toml");
        snapshot.append("\n");
        snapshot.append(cargo);
        snapshot.append("\n\n");
        snapshot.append("File: ");
        snapshot.append("proc_macro_crate/Cargo.toml");
        snapshot.append("\n");
        snapshot.append(proc_macro_cargo);
        snapshot.append("\n\n");
        let rest = Self::create_project_snapshot(sources);
        snapshot.append(rest.as_str());
        snapshot
    }

    /// Lays out the sections of `files`, in their order.
    pub fn create_project_snapshot(files: &Vec<SourceFile>) -> (r: String)
        ensures
            r@ == snapshot_text(files_view(files@)),
    {
        let mut snapshot = String::new();
        let mut i: usize = 0;
        while i < files.len()
            invariant
                i <= files@.len(),
                snapshot@ == snapshot_text(files_view(files@).take(i as int)),
            decreases files@.len() - i,
        {
            proof {
                assert(files_view(files@).take(i + 1).drop_last() =~= files_view(files@).take(
                    i as int,
                ));
            }
            snapshot.append("File: ");
            snapshot.append(files[i].path.as_str());
            snapshot.append("\n");
            snapshot.append(files[i].contents.as_str());
            snapshot.append("\n\n");
            i += 1;
        }
        assert(files_view(files@).take(files@.len() as int) =~= files_view(files@));
        snapshot
    }

    /// The tool's error for a file that could not be read; `error` says why.
    pub fn read_error(error: &str) -> (e: AppError)
        ensures
            e@ == read_failure(error@),
    {
        let message = concat2("Error reading file: ", error);
        AppError::SerdeJsonError(error_message(&error_from_message(message.as_str())))
    }

    /// The tool's error for a snapshot that could not be written; `error` says
    /// why.
    pub fn write_error(error: &str) -> (e: AppError)
        ensures
            e@ == write_failure(error@),
    {
        let message = concat2("Error writing to file: ", error);
        AppError::SerdeJsonError(error_message(&error_from_message(message.as_str())))
    }
}

} // verus!
