//! Tools that a handler can run, and what a finished command hands back.

pub mod nmap;
pub mod system;

use std::sync::Arc;
use vstd::prelude::*;
use vstd::string::StringExecFns;
use crate::errors::SenseiError;
use crate::text::same_text;

verus! {

/// Something a handler can run on one argument.
pub trait Tool: Send + Sync {
    /// The name under which the tool is registered. A tool that says nothing
    /// of it has some fixed name.
    open spec fn name_spec(&self) -> Seq<char> {
        arbitrary()
    }

    /// Whether `output` is a text that the tool may return for `args`. A tool
    /// that says nothing of it may return any text.
    open spec fn may_return(&self, args: Seq<char>, output: Seq<char>) -> bool {
        true
    }

    /// Whether the tool may fail on `args` with an error whose message is
    /// `message`. A tool that says nothing of it may fail with any error.
    open spec fn may_fail(&self, args: Seq<char>, message: Seq<char>) -> bool {
        true
    }

    /// The name under which the tool is registered.
    fn name(&self) -> (n: &str)
        ensures
            n@ == self.name_spec(),
    ;

    /// Runs the tool on `args`.
    fn execute(&self, args: &str) -> (r: Result<String, SenseiError>)
        ensures
            match r {
                Ok(output) => self.may_return(args@, output@),
                Err(e) => self.may_fail(args@, e.message_spec()),
            },
    ;
}

/// How a command ended, as far as a tool reads it.
#[derive(Debug)]
pub struct CommandOutput {
    /// Whether the command exited with success.
    pub success: bool,
    /// What the command wrote to its standard output.
    pub stdout: String,
    /// What the command wrote to its standard error.
    pub stderr: String,
}

/// A command to run: the program and its arguments.
#[derive(Debug)]
pub struct Invocation {
    pub program: String,
    pub args: Vec<String>,
}

/// The first place at or after `i` at which `name` stands in `names`.
pub open spec fn place_in(names: Seq<Seq<char>>, name: Seq<char>, i: int) -> Option<int>
    decreases names.len() - i,
{
    if i < 0 || i >= names.len() {
        None
    } else if names[i] == name {
        Some(i)
    } else {
        place_in(names, name, i + 1)
    }
}

/// A name that does not stand in `names` from `i` on stands, once pushed,
/// at the end.
pub proof fn lemma_place_in_push(names: Seq<Seq<char>>, name: Seq<char>, i: int)
    requires
        0 <= i <= names.len(),
        place_in(names, name, i) is None,
    ensures
        place_in(names.push(name), name, i) == Some(names.len() as int),
    decreases names.len() - i,
{
    if i < names.len() {
        assert(names.push(name)[i] == names[i]);
        lemma_place_in_push(names, name, i + 1);
    }
}

/// A tool under the name it was registered with.
struct RegisteredTool {
    name: String,
    tool: Arc<Box<dyn Tool>>,
}

/// Tools by name. A name stands for the tool that was registered last under
/// it.
pub struct ToolSet {
    tools: Vec<RegisteredTool>,
}

impl ToolSet {
    /// The names of the registered tools, in the order of their first
    /// registration.
    pub closed spec fn names(&self) -> Seq<Seq<char>> {
        Seq::new(self.tools.len() as nat, |i: int| self.tools[i].name@)
    }

    /// Where the tool named `name` stands, if it is registered: at the first
    /// place that holds the name.
    pub open spec fn place_of(&self, name: Seq<char>) -> Option<int> {
        place_in(self.names(), name, 0)
    }

    /// The tool at place `i`.
    pub closed spec fn tool_at(&self, i: int) -> Arc<Box<dyn Tool>> {
        self.tools[i].tool
    }

    /// Whether `output` is a text that the tool at place `i` may return for
    /// `args`.
    pub open spec fn may_return(&self, i: int, args: Seq<char>, output: Seq<char>) -> bool {
        self.tool_at(i).may_return(args, output)
    }

    /// Whether the tool at place `i` may fail on `args` with an error whose
    /// message is `message`.
    pub open spec fn may_fail(&self, i: int, args: Seq<char>, message: Seq<char>) -> bool {
        self.tool_at(i).may_fail(args, message)
    }

    /// Whether `after` is the set `self` with `tool` put under `name`: the
    /// name stands where it stood, or at the end where it is new; its place
    /// holds `tool`; every other place holds what it held.
    pub open spec fn with_tool(&self, name: Seq<char>, tool: Arc<Box<dyn Tool>>, after: ToolSet) -> bool {
        &&& after.names() == if self.place_of(name) is Some {
            self.names()
        } else {
            self.names().push(name)
        }
        &&& after.place_of(name) == if self.place_of(name) is Some {
            self.place_of(name)
        } else {
            Some(self.names().len() as int)
        }
        &&& after.tool_at(after.place_of(name)->0) == tool
        &&& forall|i: int|
            0 <= i < self.names().len() && Some(i) != after.place_of(name)
                ==> #[trigger] after.tool_at(i) == self.tool_at(i)
    }

    /// A set without tools.
    pub fn new() -> (s: Self)
        ensures
            s.names() == Seq::<Seq<char>>::empty(),
    {
        let s = ToolSet { tools: Vec::new() };
        assert(s.names() =~= Seq::<Seq<char>>::empty());
        s
    }

    /// How many names are registered.
    pub fn len(&self) -> (n: usize)
        ensures
            n == self.names().len(),
    {
        self.tools.len()
    }

    /// The name at place `i`.
    pub fn name_at(&self, i: usize) -> (name: &str)
        requires
            i < self.names().len(),
        ensures
            name@ == self.names()[i as int],
    {
        self.tools[i].name.as_str()
    }

    /// Where the tool named `name` stands, if it is registered.
    pub fn position(&self, name: &str) -> (r: Option<usize>)
        ensures
            match r {
                Some(i) => self.place_of(name@) == Some(i as int) && i < self.names().len()
                    && self.names()[i as int] == name@,
                None => self.place_of(name@) is None,
            },
    {
        let mut i: usize = 0;
        while i < self.tools.len()
            invariant
                i <= self.tools.len(),
                self.place_of(name@) == place_in(self.names(), name@, i as int),
            decreases self.tools.len() - i,
        {
            if same_text(self.tools[i].name.as_str(), name) {
                return Some(i);
            }
            i += 1;
        }
        None
    }

    /// Puts the shared tool `tool` under `name`, in place of any tool that
    /// had the name.
    pub fn insert(&mut self, name: String, tool: Arc<Box<dyn Tool>>)
        ensures
            old(self).with_tool(name@, tool, *final(self)),
    {
        let ghost before = *self;
        let ghost key = name@;
        let ghost held = tool;
        let found = self.position(name.as_str());
        match found {
            Some(i) => {
                self.tools[i] = RegisteredTool { name, tool };
                assert(self.names() =~= before.names());
                assert(self.tools[i as int].tool == held);
            },
            None => {
                self.tools.push(RegisteredTool { name, tool });
                assert(self.names() =~= before.names().push(key));
                proof {
                    lemma_place_in_push(before.names(), key, 0);
                }
                assert(self.tools[before.names().len() as int].tool == held);
            },
        }
    }

    /// Registers `tool` under its own name, in place of any tool that had
    /// the name. The name then stands for `tool`, and every other name for
    /// what it stood for.
    pub fn register(&mut self, tool: Box<dyn Tool>)
        ensures
            exists|shared: Arc<Box<dyn Tool>>|
                shared == tool && #[trigger] old(self).with_tool(
                    tool.name_spec(),
                    shared,
                    *final(self),
                ),
    {
        let name: String = String::from_str(tool.name());
        let ghost before = *self;
        let shared = Arc::new(tool);
        let ghost held = shared;
        self.insert(name, shared);
        assert(before.with_tool(tool.name_spec(), held, *self));
    }

    /// Runs the tool at place `i` on `args`.
    pub fn run(&self, i: usize, args: &str) -> (r: Result<String, SenseiError>)
        requires
            i < self.names().len(),
        ensures
            match r {
                Ok(output) => self.may_return(i as int, args@, output@),
                Err(e) => self.may_fail(i as int, args@, e.message_spec()),
            },
    {
        self.tools[i].tool.execute(args)
    }
}

} // verus!
