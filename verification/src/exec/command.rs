//! The calls into the runtime that the context asks its driver to make, and
//! what an initialisation hook registers.

use vstd::prelude::*;
use vstd::string::StringSliceAdditionalSpecFns;
use vstd::utf8::encode_utf8;

use crate::value::string::has_nul;
use crate::value::Value;

verus! {

/// Text that the runtime can take as a C string: none of its bytes is zero.
pub open spec fn nul_free(text: Seq<char>) -> bool {
    !has_nul(encode_utf8(text))
}

/// Names a native function that the runtime can call. The driver knows
/// which function stands behind the number.
#[derive(Clone, Copy, Debug)]
pub struct FunctionImplementation(pub usize);

/// One call into the runtime.
pub enum Command {
    /// Start the embedding. No arguments are handed over as no vector at
    /// all, never as an empty one.
    EmbedInit { argc: i32, argv: Option<Vec<String>> },
    /// Make the bound value in `slot` a global variable.
    RegisterVariable { name: String, slot: usize },
    /// Make the bound value in `slot` a global constant.
    RegisterConstant { name: String, slot: usize },
    /// Register a native function under `name`.
    RegisterFunction { name: String, function: FunctionImplementation, num_args: u32 },
    /// Evaluate an expression and hand back its value.
    EvalString { source: String, script_name: String },
    /// Run a script file and hand back what it returns.
    ExecuteFile { path: String },
    /// Call a function of the runtime and hand back its result.
    CallFunction { name: String, params: Vec<Value> },
    /// End the embedding.
    EmbedShutdown,
}

/// What a command says.
pub enum CommandView {
    EmbedInit { argc: i32, argv: Option<Seq<Seq<char>>> },
    RegisterVariable { name: Seq<char>, slot: nat },
    RegisterConstant { name: Seq<char>, slot: nat },
    RegisterFunction { name: Seq<char>, function: FunctionImplementation, num_args: u32 },
    EvalString { source: Seq<char>, script_name: Seq<char> },
    ExecuteFile { path: Seq<char> },
    CallFunction { name: Seq<char>, params: Seq<Value> },
    EmbedShutdown,
}

impl CommandView {
    /// The runtime can take the name, the source or the path of the command
    /// as a C string.
    pub open spec fn sendable(self) -> bool {
        match self {
            CommandView::RegisterVariable { name, .. } => nul_free(name),
            CommandView::RegisterConstant { name, .. } => nul_free(name),
            CommandView::RegisterFunction { name, .. } => nul_free(name),
            CommandView::EvalString { source, .. } => nul_free(source),
            CommandView::ExecuteFile { path } => nul_free(path),
            CommandView::CallFunction { name, .. } => nul_free(name),
            _ => true,
        }
    }
}

/// Every command of the list is sendable.
pub open spec fn all_sendable(commands: Seq<CommandView>) -> bool {
    forall|i: int| 0 <= i < commands.len() ==> (#[trigger] commands[i]).sendable()
}

/// The texts of a list of strings.
pub open spec fn texts(strings: Seq<String>) -> Seq<Seq<char>> {
    strings.map_values(|s: String| s@)
}

impl View for Command {
    type V = CommandView;

    open spec fn view(&self) -> CommandView {
        match self {
            Command::EmbedInit { argc, argv } => CommandView::EmbedInit {
                argc: *argc,
                argv: match argv {
                    Some(argv) => Some(texts(argv@)),
                    None => None,
                },
            },
            Command::RegisterVariable { name, slot } => CommandView::RegisterVariable {
                name: name@,
                slot: *slot as nat,
            },
            Command::RegisterConstant { name, slot } => CommandView::RegisterConstant {
                name: name@,
                slot: *slot as nat,
            },
            Command::RegisterFunction { name, function, num_args } => {
                CommandView::RegisterFunction {
                    name: name@,
                    function: *function,
                    num_args: *num_args,
                }
            },
            Command::EvalString { source, script_name } => CommandView::EvalString {
                source: source@,
                script_name: script_name@,
            },
            Command::ExecuteFile { path } => CommandView::ExecuteFile { path: path@ },
            Command::CallFunction { name, params } => CommandView::CallFunction {
                name: name@,
                params: params@,
            },
            Command::EmbedShutdown => CommandView::EmbedShutdown,
        }
    }
}

/// What a list of commands says, one by one.
pub open spec fn views(commands: Seq<Command>) -> Seq<CommandView> {
    commands.map_values(|c: Command| c@)
}

/// What a hook registers under a name.
pub enum Registered {
    /// A global variable with this value.
    Variable(Value),
    /// A global constant with this value.
    Constant(Value),
    /// A native function.
    Function(FunctionImplementation),
}

/// One thing that an initialisation hook registers: a name that the runtime
/// can take, and what stands under it.
pub struct Registration {
    name: String,
    what: Registered,
}

impl Registration {
    #[verifier::type_invariant]
    spec fn inv(self) -> bool {
        nul_free(self.name@)
    }

    pub closed spec fn name(self) -> Seq<char> {
        self.name@
    }

    pub closed spec fn what(self) -> Registered {
        self.what
    }

    /// The value that the registration hands to the context to keep, if it
    /// has one.
    pub open spec fn carries(self) -> Option<Value> {
        match self.what() {
            Registered::Variable(value) => Some(value),
            Registered::Constant(value) => Some(value),
            Registered::Function(_) => None,
        }
    }

    /// The call that registers it, with its value kept in `slot`.
    pub open spec fn command(self, slot: nat) -> CommandView {
        match self.what() {
            Registered::Variable(_) => CommandView::RegisterVariable { name: self.name(), slot },
            Registered::Constant(_) => CommandView::RegisterConstant { name: self.name(), slot },
            Registered::Function(function) => CommandView::RegisterFunction {
                name: self.name(),
                function,
                num_args: 0,
            },
        }
    }

    /// Registers a global variable.
    pub fn variable(name: &str, value: Value) -> (r: Registration)
        requires
            nul_free(name@),
        ensures
            r.name() == name@,
            r.what() == Registered::Variable(value),
    {
        Registration { name: name.to_owned(), what: Registered::Variable(value) }
    }

    /// Registers a global constant.
    pub fn constant(name: &str, value: Value) -> (r: Registration)
        requires
            nul_free(name@),
        ensures
            r.name() == name@,
            r.what() == Registered::Constant(value),
    {
        Registration { name: name.to_owned(), what: Registered::Constant(value) }
    }

    /// Registers a native function.
    pub fn function(name: &str, function: FunctionImplementation) -> (r: Registration)
        requires
            nul_free(name@),
        ensures
            r.name() == name@,
            r.what() == Registered::Function(function),
    {
        Registration { name: name.to_owned(), what: Registered::Function(function) }
    }

    /// Takes the registration apart.
    pub(crate) fn into_parts(self) -> (parts: (String, Registered))
        ensures
            parts.0@ == self.name(),
            parts.1 == self.what(),
            nul_free(parts.0@),
    {
        proof {
            use_type_invariant(&self);
        }
        (self.name, self.what)
    }
}

/// The values that a hook hands to the context to keep, in order.
pub open spec fn carried(hook: Seq<Registration>) -> Seq<Value>
    decreases hook.len(),
{
    if hook.len() == 0 {
        Seq::empty()
    } else {
        match hook.last().carries() {
            Some(value) => carried(hook.drop_last()).push(value),
            None => carried(hook.drop_last()),
        }
    }
}

/// The calls that register what a hook holds, in order, where the context
/// kept `base` values before.
pub open spec fn registered(hook: Seq<Registration>, base: nat) -> Seq<CommandView>
    decreases hook.len(),
{
    if hook.len() == 0 {
        Seq::empty()
    } else {
        registered(hook.drop_last(), base).push(
            hook.last().command(base + carried(hook.drop_last()).len()),
        )
    }
}

/// A hook asks for one call for each thing that it registers, in the order
/// in which it holds them, and hands over at most one value for each.
pub proof fn lemma_registered(hook: Seq<Registration>, base: nat)
    ensures
        registered(hook, base).len() == hook.len(),
        carried(hook).len() <= hook.len(),
        forall|i: int|
            0 <= i < hook.len() ==> #[trigger] registered(hook, base)[i] == hook[i].command(
                base + carried(hook.take(i)).len(),
            ),
    decreases hook.len(),
{
    if hook.len() > 0 {
        let front = hook.drop_last();
        lemma_registered(front, base);
        assert forall|i: int| 0 <= i < hook.len() implies #[trigger] registered(hook, base)[i]
            == hook[i].command(base + carried(hook.take(i)).len()) by {
            if i < front.len() {
                assert(front.take(i) =~= hook.take(i));
            } else {
                assert(hook.take(i) =~= front);
            }
        }
    }
}

} // verus!
