//! The tool registry: which tools exist, how they are advertised, and which of
//! them a name selects.

use crate::json::{lemma_array_view, lemma_object_view, Json, JsonView, Member, MemberView};
use crate::text::{concat3, same_text};
use crate::types::{AppError, AppErrorView};
use vstd::prelude::*;
use vstd::string::*;

verus! {

/// A named capability: what it is called, what it does, and the JSON schema of
/// its arguments.
pub trait Tool {
    spec fn name_spec(&self) -> Seq<char>;

    spec fn description_spec(&self) -> Seq<char>;

    spec fn parameters_spec(&self) -> JsonView;

    /// The name under which the tool is registered and called.
    fn name(&self) -> (r: &'static str)
        ensures
            r@ == self.name_spec(),
    ;

    /// One sentence on what the tool does.
    fn description(&self) -> (r: &'static str)
        ensures
            r@ == self.description_spec(),
    ;

    /// The JSON schema of the tool's arguments.
    fn parameters(&self) -> (r: Json)
        ensures
            r@ == self.parameters_spec(),
    ;
}

/// What the registry keeps of one tool.
#[derive(Debug)]
pub struct ToolEntry {
    pub name: String,
    pub description: String,
    pub parameters: Json,
    pub input_schema: String,
}

pub struct ToolEntryView {
    pub name: Seq<char>,
    pub description: Seq<char>,
    pub parameters: JsonView,
    pub input_schema: Seq<char>,
}

impl View for ToolEntry {
    type V = ToolEntryView;

    open spec fn view(&self) -> ToolEntryView {
        ToolEntryView {
            name: self.name@,
            description: self.description@,
            parameters: self.parameters@,
            input_schema: self.input_schema@,
        }
    }
}

/// The order to run one tool: its registered name and the arguments for it.
#[derive(Debug)]
pub struct ToolInvocation {
    pub tool: String,
    pub args: Json,
}

pub struct ToolInvocationView {
    pub tool: Seq<char>,
    pub args: JsonView,
}

impl View for ToolInvocation {
    type V = ToolInvocationView;

    open spec fn view(&self) -> ToolInvocationView {
        ToolInvocationView { tool: self.tool@, args: self.args@ }
    }
}

/// The tools that can be called, each under its own name, in the order in which
/// their names were first registered.
pub struct ToolRegistry {
    tools: Vec<ToolEntry>,
}

/// The position of the entry named `name`, scanning `entries[..upto]`; `None`
/// where no entry there has that name.
pub open spec fn position_of(entries: Seq<ToolEntryView>, name: Seq<char>, upto: int) -> Option<int>
    decreases upto,
{
    if upto <= 0 {
        None
    } else if entries[upto - 1].name == name {
        Some(upto - 1)
    } else {
        position_of(entries, name, upto - 1)
    }
}

/// No two entries share a name.
pub open spec fn names_unique(entries: Seq<ToolEntryView>) -> bool {
    forall|i: int, j: int|
        0 <= i < j < entries.len() ==> (#[trigger] entries[i]).name != (#[trigger] entries[j]).name
}

/// Whether some entry is named `name`.
pub open spec fn has_tool(entries: Seq<ToolEntryView>, name: Seq<char>) -> bool {
    exists|i: int| 0 <= i < entries.len() && (#[trigger] entries[i]).name == name
}

/// The entries after `entry` was registered: it takes the place of the entry of
/// the same name, or comes last where there is none.
pub open spec fn registered(entries: Seq<ToolEntryView>, entry: ToolEntryView) -> Seq<
    ToolEntryView,
> {
    match position_of(entries, entry.name, entries.len() as int) {
        Some(i) => entries.update(i, entry),
        None => entries.push(entry),
    }
}

/// The text of the error for a name that selects no tool.
pub open spec fn not_found_text(name: Seq<char>) -> Seq<char> {
    "Tool `"@ + name + "` not found"@
}

/// What a name selects among `entries`: the order to run the tool of that name
/// on `args`, or the error that says that there is no such tool.
pub open spec fn selected(entries: Seq<ToolEntryView>, name: Seq<char>, args: JsonView) -> Result<
    ToolInvocationView,
    AppErrorView,
> {
    if has_tool(entries, name) {
        Ok(ToolInvocationView { tool: name, args })
    } else {
        Err(AppErrorView::CommandError(not_found_text(name)))
    }
}

/// The view of a selection.
pub open spec fn selection_view(r: Result<ToolInvocation, AppError>) -> Result<
    ToolInvocationView,
    AppErrorView,
> {
    match r {
        Ok(inv) => Ok(inv@),
        Err(e) => Err(e@),
    }
}

/// How one tool is advertised to the model.
pub open spec fn manifest_entry(e: ToolEntryView) -> JsonView {
    JsonView::Object(
        seq![
            MemberView { key: "type"@, value: JsonView::String("function"@) },
            MemberView {
                key: "function"@,
                value: JsonView::Object(
                    seq![
                        MemberView { key: "name"@, value: JsonView::String(e.name) },
                        MemberView { key: "description"@, value: JsonView::String(e.description) },
                        MemberView { key: "parameters"@, value: e.parameters },
                    ],
                ),
            },
        ],
    )
}

/// The manifest: one entry per tool, in the registry's order.
pub open spec fn manifest(entries: Seq<ToolEntryView>) -> JsonView {
    JsonView::Array(Seq::new(entries.len(), |i: int| manifest_entry(entries[i])))
}

/// The listing for the console: a heading, then one line per tool.
pub open spec fn listing_text(entries: Seq<ToolEntryView>) -> Seq<char>
    decreases entries.len(),
{
    if entries.len() == 0 {
        "Available Tools:\n\n"@
    } else {
        listing_text(entries.drop_last()) + entries.last().name + " - "@
            + entries.last().description + "\n"@
    }
}

/// The argument schemas as text: for each tool a heading, its schema and a
/// blank line.
pub open spec fn schemas_text(entries: Seq<ToolEntryView>) -> Seq<char>
    decreases entries.len(),
{
    if entries.len() == 0 {
        Seq::empty()
    } else {
        schemas_text(entries.drop_last()) + entries.last().name + " schena:\n"@
            + entries.last().input_schema + "\n\n"@
    }
}

impl View for ToolRegistry {
    type V = Seq<ToolEntryView>;

    closed spec fn view(&self) -> Seq<ToolEntryView> {
        Seq::new(self.tools@.len(), |i: int| self.tools@[i]@)
    }
}

impl ToolRegistry {
    /// Well-formed: no name is registered twice.
    pub open spec fn wf(&self) -> bool {
        names_unique(self@)
    }

    /// A registry without tools.
    pub fn new() -> (r: ToolRegistry)
        ensures
            r@ == Seq::<ToolEntryView>::empty(),
            r.wf(),
    {
        let r = ToolRegistry { tools: Vec::new() };
        assert(r@ =~= Seq::<ToolEntryView>::empty());
        r
    }

    fn find(&self, name: &str) -> (r: Option<usize>)
        ensures
            match r {
                Some(i) => position_of(self@, name@, self@.len() as int) == Some(i as int) && i
                    < self@.len(),
                None => position_of(self@, name@, self@.len() as int).is_none(),
            },
    {
        let mut i: usize = self.tools.len();
        while i > 0
            invariant
                i <= self.tools@.len(),
                self@.len() == self.tools@.len(),
                position_of(self@, name@, self@.len() as int) == position_of(
                    self@,
                    name@,
                    i as int,
                ),
            decreases i,
        {
            if same_text(self.tools[i - 1].name.as_str(), name) {
                return Some(i - 1);
            }
            i -= 1;
        }
        None
    }

    /// Registers `tool` under its name with the schema text of its input. A tool
    /// already registered under that name is replaced.
    pub fn register<T: Tool>(&mut self, tool: &T, input_schema: String)
        requires
            old(self).wf(),
        ensures
            final(self).wf(),
            final(self)@ == registered(
                old(self)@,
                ToolEntryView {
                    name: tool.name_spec(),
                    description: tool.description_spec(),
                    parameters: tool.parameters_spec(),
                    input_schema: input_schema@,
                },
            ),
    {
        let entry = ToolEntry {
            name: tool.name().to_string(),
            description: tool.description().to_string(),
            parameters: tool.parameters(),
            input_schema,
        };
        let ghost before = self@;
        let ghost e = entry@;
        proof {
            lemma_position_of(before, e.name, before.len() as int);
        }
        match self.find(entry.name.as_str()) {
            Some(i) => {
                self.tools.set(i, entry);
                assert(self@ =~= before.update(i as int, e));
            },
            None => {
                self.tools.push(entry);
                assert(self@ =~= before.push(e));
            },
        }
    }

    /// Whether a tool is registered under `name`.
    pub fn contains(&self, name: &str) -> (r: bool)
        ensures
            r == has_tool(self@, name@),
    {
        proof {
            lemma_position_of(self@, name@, self@.len() as int);
        }
        self.find(name).is_some()
    }

    /// The number of tools.
    pub fn len(&self) -> (n: usize)
        ensures
            n == self@.len(),
    {
        self.tools.len()
    }

    /// Selects the tool to run. A registered name gives the order to run that
    /// tool on `args`; any other name gives an error and no order.
    pub fn execute_tool(&self, tool_name: &str, args: Json) -> (r: Result<ToolInvocation, AppError>)
        ensures
            selection_view(r) == selected(self@, tool_name@, args@),
    {
        if self.contains(tool_name) {
            Ok(ToolInvocation { tool: tool_name.to_string(), args })
        } else {
            Err(AppError::CommandError(concat3("Tool `", tool_name, "` not found")))
        }
    }

    /// The manifest that advertises the tools to the model.
    pub fn generate_tools_json(&self) -> (r: Json)
        ensures
            r@ == manifest(self@),
    {
        let mut out: Vec<Json> = Vec::new();
        let mut i: usize = 0;
        while i < self.tools.len()
            invariant
                i <= self.tools@.len(),
                self@.len() == self.tools@.len(),
                out@.len() == i,
                forall|j: int| 0 <= j < i ==> (#[trigger] out@[j])@ == manifest_entry(self@[j]),
            decreases self.tools@.len() - i,
        {
            let t = &self.tools[i];
            let inner: Vec<Member> = vec![
                Member { key: "name".to_string(), value: Json::String(t.name.clone()) },
                Member {
                    key: "description".to_string(),
                    value: Json::String(t.description.clone()),
                },
                Member { key: "parameters".to_string(), value: t.parameters.copy() },
            ];
            let outer: Vec<Member> = vec![
                Member { key: "type".to_string(), value: Json::String("function".to_string()) },
                Member { key: "function".to_string(), value: Json::Object(inner) },
            ];
            let entry = Json::Object(outer);
            proof {
                lemma_object_view(inner);
                lemma_object_view(outer);
                assert(crate::json::members_view(inner@) =~= seq![
                    MemberView { key: "name"@, value: JsonView::String(t@.name) },
                    MemberView { key: "description"@, value: JsonView::String(t@.description) },
                    MemberView { key: "parameters"@, value: t@.parameters },
                ]);
                assert(crate::json::members_view(outer@) =~= seq![
                    MemberView { key: "type"@, value: JsonView::String("function"@) },
                    MemberView { key: "function"@, value: Json::Object(inner)@ },
                ]);
            }
            out.push(entry);
            i += 1;
        }
        proof {
            lemma_array_view(out);
            assert(crate::json::items_view(out@) =~= Seq::new(
                self@.len(),
                |i: int| manifest_entry(self@[i]),
            ));
        }
        Json::Array(out)
    }

    /// The argument schemas of all tools as one text.
    pub fn generate_tools_schemas(&self) -> (r: String)
        ensures
            r@ == schemas_text(self@),
    {
        let mut out = String::new();
        let mut i: usize = 0;
        while i < self.tools.len()
            invariant
                i <= self.tools@.len(),
                self@.len() == self.tools@.len(),
                out@ == schemas_text(self@.take(i as int)),
            decreases self.tools@.len() - i,
        {
            let t = &self.tools[i];
            proof {
                assert(self@.take(i + 1).drop_last() =~= self@.take(i as int));
            }
            out.append(t.name.as_str());
            out.append(" schena:\n");
            out.append(t.input_schema.as_str());
            out.append("\n\n");
            i += 1;
        }
        assert(self@.take(self@.len() as int) =~= self@);
        out
    }

    /// The listing of the tools for the console.
    pub fn list_tools(&self) -> (r: String)
        ensures
            r@ == listing_text(self@),
    {
        let mut out = String::from_str("Available Tools:\n\n");
        let mut i: usize = 0;
        while i < self.tools.len()
            invariant
                i <= self.tools@.len(),
                self@.len() == self.tools@.len(),
                out@ == listing_text(self@.take(i as int)),
            decreases self.tools@.len() - i,
        {
            let t = &self.tools[i];
            proof {
                assert(self@.take(i + 1).drop_last() =~= self@.take(i as int));
            }
            out.append(t.name.as_str());
            out.append(" - ");
            out.append(t.description.as_str());
            out.append("\n");
            i += 1;
        }
        assert(self@.take(self@.len() as int) =~= self@);
        out
    }
}

/// `position_of` finds an entry exactly where one of that name exists, and what
/// it finds has that name.
pub proof fn lemma_position_of(entries: Seq<ToolEntryView>, name: Seq<char>, upto: int)
    requires
        0 <= upto <= entries.len(),
    ensures
        match position_of(entries, name, upto) {
            Some(i) => 0 <= i < upto && entries[i].name == name,
            None => forall|i: int| 0 <= i < upto ==> (#[trigger] entries[i]).name != name,
        },
        upto == entries.len() ==> (position_of(entries, name, upto).is_some() <==> has_tool(
            entries,
            name,
        )),
    decreases upto,
{
    if upto > 0 {
        lemma_position_of(entries, name, upto - 1);
    }
}

} // verus!
