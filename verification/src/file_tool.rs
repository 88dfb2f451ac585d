//! The file tool: it creates and deletes files and edits them line by line.
//! This module decides what is read and written and what the edited text is;
//! touching the files is the caller's part.

use crate::json::{array, object, text, Json, JsonView};
use crate::registry::Tool;
use crate::shell_tool::text_result_view;
use crate::text::{opt_text, texts_view};
use crate::types::{AppError, AppErrorView};
use vstd::prelude::*;
use vstd::string::*;

verus! {

/// The tool that works on files.
#[derive(Debug)]
pub struct FileTool;

/// The kinds of file operation.
#[derive(Debug, Clone, Copy, PartialEq, Eq, Structural)]
pub enum FileOpType {
    Create,
    Delete,
    InsertLine,
    DeleteLine,
    UpdateLine,
}

/// One file operation. `content` is the text of the file or of the line, `line`
/// the number of the line, counted from one.
#[derive(Debug)]
pub struct FileOperation {
    pub op: FileOpType,
    pub file_path: String,
    pub content: Option<String>,
    pub line: Option<usize>,
}

pub struct FileOperationView {
    pub op: FileOpType,
    pub file_path: Seq<char>,
    pub content: Option<Seq<char>>,
    pub line: Option<usize>,
}

impl View for FileOperation {
    type V = FileOperationView;

    open spec fn view(&self) -> FileOperationView {
        FileOperationView {
            op: self.op,
            file_path: self.file_path@,
            content: opt_text(self.content),
            line: self.line,
        }
    }
}

/// The views of `operations`, in order.
pub open spec fn operations_view(operations: Seq<FileOperation>) -> Seq<FileOperationView> {
    Seq::new(operations.len(), |i: int| operations[i]@)
}

/// The input of the file tool: the operations, in the order in which they are
/// carried out.
#[derive(Debug)]
pub struct FileToolInput {
    pub operations: Vec<FileOperation>,
}

/// The text of a file with the given lines: each line, then a line feed.
pub open spec fn lines_text(lines: Seq<Seq<char>>) -> Seq<char>
    decreases lines.len(),
{
    if lines.len() == 0 {
        Seq::empty()
    } else {
        lines_text(lines.drop_last()) + lines.last() + "\n"@
    }
}

/// The lines with `content` as a new line number `n`. A number beyond the last
/// line puts the new line at the end; the number zero puts it nowhere.
pub open spec fn with_line_inserted(lines: Seq<Seq<char>>, n: nat, content: Seq<char>) -> Seq<
    Seq<char>,
> {
    if 1 <= n <= lines.len() {
        lines.take(n - 1).push(content) + lines.skip(n - 1)
    } else if n > lines.len() {
        lines.push(content)
    } else {
        lines
    }
}

/// The lines without line number `n`; all of them where there is no such line.
pub open spec fn with_line_deleted(lines: Seq<Seq<char>>, n: nat) -> Seq<Seq<char>> {
    if 1 <= n <= lines.len() {
        lines.take(n - 1) + lines.skip(n as int)
    } else {
        lines
    }
}

/// The lines with `content` in the place of line number `n`; as they are where
/// there is no such line.
pub open spec fn with_line_updated(lines: Seq<Seq<char>>, n: nat, content: Seq<char>) -> Seq<
    Seq<char>,
> {
    if 1 <= n <= lines.len() {
        lines.update(n - 1, content)
    } else {
        lines
    }
}

fn render(lines: &Vec<String>) -> (r: String)
    ensures
        r@ == lines_text(texts_view(lines@)),
{
    let mut out = String::new();
    let mut i: usize = 0;
    while i < lines.len()
        invariant
            i <= lines@.len(),
            out@ == lines_text(texts_view(lines@).take(i as int)),
        decreases lines@.len() - i,
    {
        proof {
            assert(texts_view(lines@).take(i + 1).drop_last() =~= texts_view(lines@).take(
                i as int,
            ));
        }
        out.append(lines[i].as_str());
        out.append("\n");
        i += 1;
    }
    assert(texts_view(lines@).take(lines@.len() as int) =~= texts_view(lines@));
    out
}

/// The text of the file after `line_content` became its line `line_number`.
pub fn insert_line(lines: &Vec<String>, line_number: usize, line_content: &str) -> (r: String)
    ensures
        r@ == lines_text(
            with_line_inserted(texts_view(lines@), line_number as nat, line_content@),
        ),
{
    let ghost all = texts_view(lines@);
    let mut out: Vec<String> = Vec::new();
    let mut i: usize = 0;
    while i < lines.len()
        invariant
            i <= lines@.len(),
            all == texts_view(lines@),
            texts_view(out@) == if 1 <= line_number <= i {
                all.take(line_number - 1).push(line_content@) + all.subrange(
                    line_number - 1,
                    i as int,
                )
            } else {
                all.take(i as int)
            },
        decreases lines@.len() - i,
    {
        let ghost before = texts_view(out@);
        if i + 1 == line_number {
            let inserted = line_content.to_string();
            out.push(inserted);
            assert(texts_view(out@) =~= before.push(line_content@));
        }
        let ghost middle = texts_view(out@);
        out.push(lines[i].clone());
        assert(texts_view(out@) =~= middle.push(all[i as int]));
        i += 1;
        assert(texts_view(out@) =~= if 1 <= line_number <= i {
            all.take(line_number - 1).push(line_content@) + all.subrange(
                line_number - 1,
                i as int,
            )
        } else {
            all.take(i as int)
        });
    }
    assert(all.take(all.len() as int) =~= all);
    if line_number > lines.len() {
        let ghost before = texts_view(out@);
        out.push(line_content.to_string());
        assert(texts_view(out@) =~= before.push(line_content@));
    } else if line_number >= 1 {
        assert(all.subrange(line_number - 1, all.len() as int) =~= all.skip(line_number - 1));
    }
    render(&out)
}

/// The text of the file without its line `line_number`.
pub fn delete_line(lines: &Vec<String>, line_number: usize) -> (r: String)
    ensures
        r@ == lines_text(with_line_deleted(texts_view(lines@), line_number as nat)),
{
    let ghost all = texts_view(lines@);
    let mut out: Vec<String> = Vec::new();
    let mut i: usize = 0;
    while i < lines.len()
        invariant
            i <= lines@.len(),
            all == texts_view(lines@),
            texts_view(out@) == if 1 <= line_number <= i {
                all.take(line_number - 1) + all.subrange(line_number as int, i as int)
            } else {
                all.take(i as int)
            },
        decreases lines@.len() - i,
    {
        let ghost before = texts_view(out@);
        if i + 1 != line_number {
            out.push(lines[i].clone());
            assert(texts_view(out@) =~= before.push(all[i as int]));
        }
        i += 1;
        assert(texts_view(out@) =~= if 1 <= line_number <= i {
            all.take(line_number - 1) + all.subrange(line_number as int, i as int)
        } else {
            all.take(i as int)
        });
    }
    assert(all.take(all.len() as int) =~= all);
    if 1 <= line_number && line_number <= lines.len() {
        assert(all.subrange(line_number as int, all.len() as int) =~= all.skip(
            line_number as int,
        ));
    }
    render(&out)
}

/// The text of the file after `new_content` took the place of its line
/// `line_number`.
pub fn update_line(lines: &Vec<String>, line_number: usize, new_content: &str) -> (r: String)
    ensures
        r@ == lines_text(with_line_updated(texts_view(lines@), line_number as nat, new_content@)),
{
    let ghost all = texts_view(lines@);
    let mut out: Vec<String> = Vec::new();
    let mut i: usize = 0;
    while i < lines.len()
        invariant
            i <= lines@.len(),
            all == texts_view(lines@),
            texts_view(out@) == with_line_updated(all, line_number as nat, new_content@).take(
                i as int,
            ),
        decreases lines@.len() - i,
    {
        let ghost before = texts_view(out@);
        let ghost goal = with_line_updated(all, line_number as nat, new_content@);
        if i + 1 == line_number {
            out.push(new_content.to_string());
        } else {
            out.push(lines[i].clone());
        }
        assert(texts_view(out@) =~= before.push(goal[i as int]));
        assert(goal.take(i + 1) =~= goal.take(i as int).push(goal[i as int]));
        i += 1;
    }
    proof {
        let goal = with_line_updated(all, line_number as nat, new_content@);
        assert(goal.take(goal.len() as int) =~= goal);
    }
    render(&out)
}

/// What a run of the file tool asks of its caller.
#[derive(Debug)]
pub enum FileAction {
    /// Create the file, or empty it, and write the content into it.
    Write { path: String, content: String },
    /// Delete the file.
    Remove { path: String },
    /// Read the file and hand over its lines, without their line ends.
    ReadLines { path: String },
    /// The run is over: the tool's message, or the error that stopped it.
    Finished(Result<String, AppError>),
}

pub enum FileActionView {
    Write { path: Seq<char>, content: Seq<char> },
    Remove { path: Seq<char> },
    ReadLines { path: Seq<char> },
    Finished(Result<Seq<char>, AppErrorView>),
}

impl View for FileAction {
    type V = FileActionView;

    open spec fn view(&self) -> FileActionView {
        match self {
            FileAction::Write { path, content } => FileActionView::Write {
                path: path@,
                content: content@,
            },
            FileAction::Remove { path } => FileActionView::Remove { path: path@ },
            FileAction::ReadLines { path } => FileActionView::ReadLines { path: path@ },
            FileAction::Finished(r) => FileActionView::Finished(text_result_view(*r)),
        }
    }
}

/// What the caller reports of the action it was asked for.
#[derive(Debug)]
pub enum FileOutcome {
    /// The file was written or deleted.
    Done,
    /// The file was read: its lines.
    Lines(Vec<String>),
    /// The action failed.
    Failed(AppError),
}

pub enum FileOutcomeView {
    Done,
    Lines(Seq<Seq<char>>),
    Failed(AppErrorView),
}

impl View for FileOutcome {
    type V = FileOutcomeView;

    open spec fn view(&self) -> FileOutcomeView {
        match self {
            FileOutcome::Done => FileOutcomeView::Done,
            FileOutcome::Lines(lines) => FileOutcomeView::Lines(texts_view(lines@)),
            FileOutcome::Failed(e) => FileOutcomeView::Failed(e@),
        }
    }
}

/// The error for an operation that lacks what it needs.
pub open spec fn missing(what: Seq<char>) -> FileActionView {
    FileActionView::Finished(Err(AppErrorView::CommandError(what)))
}

/// How an operation begins. An operation on a file as a whole is carried out
/// at once; an operation on a line begins with reading the file. An operation
/// that lacks its content or its line number ends the run with an error.
pub open spec fn first_action(op: FileOperationView) -> FileActionView {
    match op.op {
        FileOpType::Create => match op.content {
            Some(content) => FileActionView::Write { path: op.file_path, content },
            None => missing("Missing file content for create operation"@),
        },
        FileOpType::Delete => FileActionView::Remove { path: op.file_path },
        FileOpType::InsertLine => if op.content.is_some() && op.line.is_some() {
            FileActionView::ReadLines { path: op.file_path }
        } else {
            missing("Missing line content or line number for insert line operation"@)
        },
        FileOpType::DeleteLine => if op.line.is_some() {
            FileActionView::ReadLines { path: op.file_path }
        } else {
            missing("Missing line number for delete line operation"@)
        },
        FileOpType::UpdateLine => if op.content.is_some() && op.line.is_some() {
            FileActionView::ReadLines { path: op.file_path }
        } else {
            missing("Missing line content or line number for update line operation"@)
        },
    }
}

/// The text that an operation on a line makes of a file with the given lines.
pub open spec fn edited_text(op: FileOperationView, lines: Seq<Seq<char>>) -> Seq<char> {
    match op.op {
        FileOpType::InsertLine => lines_text(
            with_line_inserted(lines, op.line.unwrap() as nat, op.content.unwrap()),
        ),
        FileOpType::DeleteLine => lines_text(with_line_deleted(lines, op.line.unwrap() as nat)),
        FileOpType::UpdateLine => lines_text(
            with_line_updated(lines, op.line.unwrap() as nat, op.content.unwrap()),
        ),
        _ => lines_text(lines),
    }
}

/// The file tool in the course of its run.
pub struct FileRun {
    operations: Vec<FileOperation>,
    position: usize,
    reading: bool,
    waiting: bool,
}

pub struct FileRunView {
    pub operations: Seq<FileOperationView>,
    /// How many operations are done.
    pub position: nat,
    /// Whether the run has asked for the lines of a file.
    pub reading: bool,
    /// Whether the run has asked for anything and not heard of it.
    pub waiting: bool,
}

impl View for FileRun {
    type V = FileRunView;

    closed spec fn view(&self) -> FileRunView {
        FileRunView {
            operations: operations_view(self.operations@),
            position: self.position as nat,
            reading: self.reading,
            waiting: self.waiting,
        }
    }
}

/// What a run does at `position`: it begins the operation there, or ends with
/// the tool's message where none is left.
pub open spec fn file_action_at(
    operations: Seq<FileOperationView>,
    position: nat,
) -> FileActionView {
    if position < operations.len() {
        first_action(operations[position as int])
    } else {
        FileActionView::Finished(Ok("File operations completed successfully."@))
    }
}

/// Whether the operation is an edit of a line that has what it needs.
pub open spec fn is_line_edit(op: FileOperationView) -> bool {
    first_action(op) is ReadLines
}

impl FileRun {
    /// Well-formed: a run that waits has an operation to wait for, and it has
    /// asked for lines only where that operation edits a line.
    pub open spec fn wf(&self) -> bool {
        &&& self@.position <= self@.operations.len()
        &&& self@.waiting ==> self@.position < self@.operations.len()
        &&& self@.reading ==> self@.waiting && is_line_edit(
            self@.operations[self@.position as int],
        )
    }

    /// Whether the run waits for the outcome of an action.
    pub fn is_waiting(&self) -> (r: bool)
        ensures
            r == self@.waiting,
    {
        self.waiting
    }

    /// Whether the run waits for the lines of a file.
    pub fn is_reading(&self) -> (r: bool)
        ensures
            r == self@.reading,
    {
        self.reading
    }

    fn fail(&mut self, message: &str) -> (action: FileAction)
        ensures
            action@ == missing(message@),
            final(self).operations == old(self).operations,
            final(self).position == old(self).position,
            !final(self).waiting,
            !final(self).reading,
    {
        self.waiting = false;
        self.reading = false;
        FileAction::Finished(Err(AppError::CommandError(message.to_string())))
    }

    fn read(&mut self) -> (action: FileAction)
        requires
            old(self).position < old(self).operations@.len(),
        ensures
            action@ == (FileActionView::ReadLines {
                path: old(self).operations@[old(self).position as int].file_path@,
            }),
            final(self).operations == old(self).operations,
            final(self).position == old(self).position,
            final(self).waiting,
            final(self).reading,
    {
        self.waiting = true;
        self.reading = true;
        FileAction::ReadLines { path: self.operations[self.position].file_path.clone() }
    }

    fn act(&mut self) -> (action: FileAction)
        requires
            old(self).position <= old(self).operations@.len(),
        ensures
            final(self)@.operations == old(self)@.operations,
            final(self)@.position == old(self)@.position,
            action@ == file_action_at(old(self)@.operations, old(self)@.position),
            final(self)@.waiting == !(action@ is Finished),
            final(self)@.reading == (action@ is ReadLines),
            final(self).wf(),
    {
        if self.position >= self.operations.len() {
            self.waiting = false;
            self.reading = false;
            return FileAction::Finished(Ok("File operations completed successfully.".to_string()));
        }
        let kind = self.operations[self.position].op;
        let has_content = self.operations[self.position].content.is_some();
        let has_line = self.operations[self.position].line.is_some();
        match kind {
            FileOpType::Create => {
                match &self.operations[self.position].content {
                    Some(content) => {
                        let action = FileAction::Write {
                            path: self.operations[self.position].file_path.clone(),
                            content: content.clone(),
                        };
                        self.waiting = true;
                        self.reading = false;
                        action
                    },
                    None => self.fail("Missing file content for create operation"),
                }
            },
            FileOpType::Delete => {
                self.waiting = true;
                self.reading = false;
                FileAction::Remove { path: self.operations[self.position].file_path.clone() }
            },
            FileOpType::InsertLine => {
                if has_content && has_line {
                    self.read()
                } else {
                    self.fail("Missing line content or line number for insert line operation")
                }
            },
            FileOpType::DeleteLine => {
                if has_line {
                    self.read()
                } else {
                    self.fail("Missing line number for delete line operation")
                }
            },
            FileOpType::UpdateLine => {
                if has_content && has_line {
                    self.read()
                } else {
                    self.fail("Missing line content or line number for update line operation")
                }
            },
        }
    }

    fn edit(&self, lines: &Vec<String>) -> (r: String)
        requires
            self.wf(),
            self@.reading,
        ensures
            r@ == edited_text(self@.operations[self@.position as int], texts_view(lines@)),
    {
        let op = &self.operations[self.position];
        match op.op {
            FileOpType::InsertLine => {
                match (&op.content, op.line) {
                    (Some(content), Some(line)) => insert_line(lines, line, content.as_str()),
                    _ => render(lines),
                }
            },
            FileOpType::DeleteLine => {
                match op.line {
                    Some(line) => delete_line(lines, line),
                    None => render(lines),
                }
            },
            FileOpType::UpdateLine => {
                match (&op.content, op.line) {
                    (Some(content), Some(line)) => update_line(lines, line, content.as_str()),
                    _ => render(lines),
                }
            },
            _ => render(lines),
        }
    }

    /// Takes the outcome of the action that the run waits for. A failure ends
    /// the run with its error. The lines of a file are edited and written
    /// back; a file that was written or deleted ends its operation, and the
    /// next one begins.
    pub fn resume(&mut self, outcome: FileOutcome) -> (action: FileAction)
        requires
            old(self).wf(),
            old(self)@.waiting,
            outcome@ is Lines ==> old(self)@.reading,
            outcome@ is Done ==> !old(self)@.reading,
        ensures
            final(self).wf(),
            final(self)@.operations == old(self)@.operations,
            final(self)@.waiting == !(action@ is Finished),
            final(self)@.reading == (action@ is ReadLines),
            match outcome@ {
                FileOutcomeView::Failed(e) => {
                    &&& action@ == FileActionView::Finished(Err(e))
                    &&& final(self)@.position == old(self)@.position
                },
                FileOutcomeView::Lines(lines) => {
                    &&& action@ == (FileActionView::Write {
                        path: old(self)@.operations[old(self)@.position as int].file_path,
                        content: edited_text(
                            old(self)@.operations[old(self)@.position as int],
                            lines,
                        ),
                    })
                    &&& final(self)@.position == old(self)@.position
                },
                FileOutcomeView::Done => {
                    &&& final(self)@.position == old(self)@.position + 1
                    &&& action@ == file_action_at(final(self)@.operations, final(self)@.position)
                },
            },
    {
        let count = self.operations.len();
        assert(self.position < count);
        match outcome {
            FileOutcome::Failed(e) => {
                self.waiting = false;
                self.reading = false;
                FileAction::Finished(Err(e))
            },
            FileOutcome::Lines(lines) => {
                let content = self.edit(&lines);
                self.reading = false;
                FileAction::Write {
                    path: self.operations[self.position].file_path.clone(),
                    content,
                }
            },
            FileOutcome::Done => {
                self.position = self.position + 1;
                self.act()
            },
        }
    }
}

/// The schema of the file tool's arguments: an object with the one property
/// `operations`, a list of operations.
pub open spec fn file_parameters() -> JsonView {
    object().with("type"@, text("object"@)).with(
        "properties"@,
        object().with(
            "operations"@,
            object().with("type"@, text("array"@)).with(
                "description"@,
                text("The JSON-encoded list of file operations to execute"@),
            ).with(
                "items"@,
                object().with("type"@, text("object"@)).with(
                    "properties"@,
                    object().with(
                        "op"@,
                        object().with("type"@, text("string"@)).with(
                            "enum"@,
                            array().and(text("create"@)).and(text("delete"@)).and(
                                text("insertline"@),
                            ).and(text("deleteline"@)).and(text("updateline"@)),
                        ).with("description"@, text("type of file operation"@)),
                    ).with(
                        "file_path"@,
                        object().with("type"@, text("string"@)).with(
                            "description"@,
                            text("path of file to operate upon"@),
                        ),
                    ).with(
                        "content"@,
                        object().with("type"@, text("string"@)).with(
                            "description"@,
                            text("new file contents"@),
                        ),
                    ).with(
                        "line"@,
                        object().with("type"@, text("integer"@)).with(
                            "description"@,
                            text(
                                "line number for insertline, updateline, and deleteline operations"@,
                            ),
                        ),
                    ),
                ).with("required"@, array().and(text("op"@)).and(text("file_path"@))),
            ),
        ),
    )
}

impl Tool for FileTool {
    open spec fn name_spec(&self) -> Seq<char> {
        "file_tool"@
    }

    open spec fn description_spec(&self) -> Seq<char> {
        "Performs file operations such as create, delete, and update on files."@
    }

    open spec fn parameters_spec(&self) -> JsonView {
        file_parameters()
    }

    fn name(&self) -> &'static str {
        "file_tool"
    }

    fn description(&self) -> &'static str {
        "Performs file operations such as create, delete, and update on files."
    }

    fn parameters(&self) -> Json {
        Json::object().with("type", Json::text("object")).with(
            "properties",
            Json::object().with(
                "operations",
                Json::object().with("type", Json::text("array")).with(
                    "description",
                    Json::text("The JSON-encoded list of file operations to execute"),
                ).with(
                    "items",
                    Json::object().with("type", Json::text("object")).with(
                        "properties",
                        Json::object().with(
                            "op",
                            Json::object().with("type", Json::text("string")).with(
                                "enum",
                                Json::array().and(Json::text("create")).and(
                                    Json::text("delete"),
                                ).and(Json::text("insertline")).and(Json::text("deleteline")).and(
                                    Json::text("updateline"),
                                ),
                            ).with("description", Json::text("type of file operation")),
                        ).with(
                            "file_path",
                            Json::object().with("type", Json::text("string")).with(
                                "description",
                                Json::text("path of file to operate upon"),
                            ),
                        ).with(
                            "content",
                            Json::object().with("type", Json::text("string")).with(
                                "description",
                                Json::text("new file contents"),
                            ),
                        ).with(
                            "line",
                            Json::object().with("type", Json::text("integer")).with(
                                "description",
                                Json::text(
                                    "line number for insertline, updateline, and deleteline operations",
                                ),
                            ),
                        ),
                    ).with(
                        "required",
                        Json::array().and(Json::text("op")).and(Json::text("file_path")),
                    ),
                ),
            ),
        )
    }
}

impl FileTool {
    /// Begins a run of `input` and says what it does first.
    pub fn execute(&self, input: FileToolInput) -> (r: (FileRun, FileAction))
        ensures
            r.0.wf(),
            r.0@.operations == operations_view(input.operations@),
            r.0@.position == 0,
            r.0@.waiting == !(r.1@ is Finished),
            r.0@.reading == (r.1@ is ReadLines),
            r.1@ == file_action_at(r.0@.operations, 0),
    {
        let mut run = FileRun {
            operations: input.operations,
            position: 0,
            reading: false,
            waiting: false,
        };
        let action = run.act();
        (run, action)
    }
}

} // verus!
