//! The execution context as a state machine. Each operation takes the
//! context from one state to the next and answers with the calls that the
//! driver has to make into the runtime, in order.

use vstd::prelude::*;

use crate::exec::command::{
    all_sendable, carried, nul_free, registered, texts, views, Command, CommandView,
    FunctionImplementation, Registered, Registration,
};
use crate::value::{Cell, Value};

verus! {

/// What is done when the execution context is initialised: the things to
/// register, in order.
pub type OnInitCallback = Vec<Registration>;

/// Where the one embedding of the runtime stands.
#[derive(Clone, Copy, Debug)]
pub enum State {
    /// The runtime was not started yet.
    Uninitialized,
    /// The runtime runs.
    Initialized,
    /// The runtime was shut down. It is not started again.
    Closed,
}

/// What the context waits for from the runtime.
#[derive(Clone, Copy, Debug)]
pub enum Awaited {
    /// Nothing: no result is due.
    Nothing,
    /// The value of an expression or of a script. What is bound lives until
    /// it has come.
    Evaluation,
    /// The result of a call of a function. What is bound outlives it.
    Call,
}

/// What a context is: its state, what it waits for, its hook, its arguments
/// and the values that it keeps alive for the runtime.
pub struct ContextView {
    pub state: State,
    pub awaited: Awaited,
    pub hook: Option<Seq<Registration>>,
    pub argc: i32,
    pub argv: Seq<Seq<char>>,
    pub bindings: Seq<Value>,
}

impl ContextView {
    /// A context that was just made: the runtime is not started, there is
    /// no hook and no argument, and nothing is bound.
    pub open spec fn new() -> ContextView {
        ContextView {
            state: State::Uninitialized,
            awaited: Awaited::Nothing,
            hook: None,
            argc: 0,
            argv: Seq::empty(),
            bindings: Seq::empty(),
        }
    }

    /// The call that starts the embedding.
    pub open spec fn embed_init(self) -> CommandView {
        CommandView::EmbedInit {
            argc: self.argc,
            argv: if self.argv.len() == 0 {
                None
            } else {
                Some(self.argv)
            },
        }
    }

    /// What the hook holds, if there is one.
    pub open spec fn registrations(self) -> Seq<Registration> {
        match self.hook {
            Some(hook) => hook,
            None => Seq::empty(),
        }
    }

    /// Starts the runtime if it was not started yet, and runs the hook right
    /// after. In any other state nothing happens.
    pub open spec fn init(self) -> (ContextView, Seq<CommandView>) {
        if self.state is Uninitialized {
            (
                ContextView {
                    state: State::Initialized,
                    hook: None,
                    bindings: self.bindings + carried(self.registrations()),
                    ..self
                },
                seq![self.embed_init()] + registered(
                    self.registrations(),
                    self.bindings.len(),
                ),
            )
        } else {
            (self, Seq::empty())
        }
    }

    /// Starts the runtime where needed, keeps `value` and registers it as
    /// a global variable.
    pub open spec fn bind(self, name: Seq<char>, value: Value) -> (ContextView, Seq<CommandView>) {
        let (started, commands) = self.init();
        (
            ContextView { bindings: started.bindings.push(value), ..started },
            commands.push(CommandView::RegisterVariable { name, slot: started.bindings.len() }),
        )
    }

    /// Keeps `value` and registers it as a global constant.
    pub open spec fn define(self, name: Seq<char>, value: Value) -> (
        ContextView,
        Seq<CommandView>,
    ) {
        (
            ContextView { bindings: self.bindings.push(value), ..self },
            seq![CommandView::RegisterConstant { name, slot: self.bindings.len() }],
        )
    }

    /// Registers a native function that takes no declared arguments.
    pub open spec fn define_function(self, name: Seq<char>, function: FunctionImplementation) -> (
        ContextView,
        Seq<CommandView>,
    ) {
        (self, seq![CommandView::RegisterFunction { name, function, num_args: 0 }])
    }

    /// Asks for `command` after the runtime was started, and waits for what
    /// it hands back.
    pub open spec fn run(self, command: CommandView, awaited: Awaited) -> (
        ContextView,
        Seq<CommandView>,
    ) {
        (ContextView { awaited, ..self.init().0 }, self.init().1.push(command))
    }

    /// Evaluates an expression.
    pub open spec fn result_of(self, expression: Seq<char>) -> (ContextView, Seq<CommandView>) {
        self.run(
            CommandView::EvalString { source: expression, script_name: "eval'd code"@ },
            Awaited::Evaluation,
        )
    }

    /// Runs a script file.
    pub open spec fn execute_file(self, file: Seq<char>) -> (ContextView, Seq<CommandView>) {
        self.run(CommandView::ExecuteFile { path: file }, Awaited::Evaluation)
    }

    /// Calls a function of the runtime with arguments.
    pub open spec fn call_with(self, name: Seq<char>, args: Seq<Value>) -> (
        ContextView,
        Seq<CommandView>,
    ) {
        self.run(CommandView::CallFunction { name, params: args }, Awaited::Call)
    }

    /// Calls a function of the runtime without arguments.
    pub open spec fn call(self, name: Seq<char>) -> (ContextView, Seq<CommandView>) {
        self.call_with(name, Seq::empty())
    }

    /// What was waited for has come. After an evaluation or a script the
    /// kept values are released; after a call they stay.
    pub open spec fn complete(self) -> ContextView {
        ContextView {
            awaited: Awaited::Nothing,
            bindings: if self.awaited is Evaluation {
                Seq::empty()
            } else {
                self.bindings
            },
            ..self
        }
    }

    /// Shuts a running runtime down. In any other state nothing happens.
    pub open spec fn close(self) -> (ContextView, Option<CommandView>) {
        if self.state is Initialized {
            (ContextView { state: State::Closed, ..self }, Some(CommandView::EmbedShutdown))
        } else {
            (self, None)
        }
    }
}

/// The execution context.
pub struct Context {
    state: State,
    awaited: Awaited,
    on_init: Option<Vec<Registration>>,
    argc: i32,
    argv: Vec<String>,
    bindings: Vec<Value>,
}

impl View for Context {
    type V = ContextView;

    closed spec fn view(&self) -> ContextView {
        ContextView {
            state: self.state,
            awaited: self.awaited,
            hook: match self.on_init {
                Some(hook) => Some(hook@),
                None => None,
            },
            argc: self.argc,
            argv: texts(self.argv@),
            bindings: self.bindings@,
        }
    }
}

/// A copy of a list of strings.
fn clone_strings(strings: &Vec<String>) -> (copy: Vec<String>)
    ensures
        copy@ == strings@,
{
    let mut copy: Vec<String> = Vec::with_capacity(strings.len());
    let mut i: usize = 0;
    while i < strings.len()
        invariant
            i <= strings@.len(),
            copy@ == strings@.take(i as int),
        decreases strings@.len() - i,
    {
        copy.push(strings[i].clone());
        i += 1;
        assert(copy@ =~= strings@.take(i as int));
    }
    assert(strings@.take(i as int) =~= strings@);
    copy
}

/// The views of a list that grew by one command.
proof fn lemma_views_push(commands: Seq<Command>, command: Command)
    ensures
        views(commands.push(command)) == views(commands).push(command@),
        all_sendable(views(commands)) && command@.sendable() ==> all_sendable(
            views(commands.push(command)),
        ),
{
    assert(views(commands.push(command)) =~= views(commands).push(command@));
}

impl Default for Context {
    fn default() -> (context: Context)
        ensures
            context@ == ContextView::new(),
    {
        Context::new()
    }
}

impl Context {
    /// Create a new execution context.
    pub fn new() -> (context: Context)
        ensures
            context@ == ContextView::new(),
    {
        let context = Context {
            state: State::Uninitialized,
            awaited: Awaited::Nothing,
            on_init: None,
            argc: 0,
            argv: Vec::new(),
            bindings: Vec::new(),
        };
        assert(context@.argv =~= Seq::empty());
        context
    }

    /// Whether the runtime was shut down.
    pub fn is_closed(&self) -> (closed: bool)
        ensures
            closed == (self@.state is Closed),
    {
        match self.state {
            State::Closed => true,
            _ => false,
        }
    }

    /// Where the embedding stands.
    pub fn state(&self) -> (state: State)
        ensures
            state == self@.state,
    {
        self.state
    }

    /// The kept value in `slot`, which a registering call names.
    pub fn binding(&self, slot: usize) -> (value: Option<&Value>)
        ensures
            value == if slot < self@.bindings.len() {
                Some(&self@.bindings[slot as int])
            } else {
                None
            },
    {
        if slot < self.bindings.len() {
            Some(&self.bindings[slot])
        } else {
            None
        }
    }

    /// Specify the number of arguments to pass to the runtime.
    pub fn argc(&mut self, argc: i32)
        ensures
            final(self)@ == (ContextView { argc, ..old(self)@ }),
    {
        self.argc = argc;
    }

    /// Specify the arguments to pass to the runtime.
    pub fn argv(&mut self, argv: Vec<String>)
        ensures
            final(self)@ == (ContextView { argv: texts(argv@), ..old(self)@ }),
    {
        self.argv = argv;
    }

    /// Register what is to be done when the execution context is
    /// initialised. A hook registered after that is never run.
    pub fn on_init(&mut self, callback: OnInitCallback)
        ensures
            final(self)@ == (ContextView { hook: Some(callback@), ..old(self)@ }),
    {
        self.on_init = Some(callback);
    }

    /// Initialise the execution context.
    ///
    /// NOTE: This method does not need to be called manually.
    pub fn init(&mut self) -> (commands: Vec<Command>)
        ensures
            final(self)@ == old(self)@.init().0,
            views(commands@) == old(self)@.init().1,
            all_sendable(views(commands@)),
    {
        let mut commands: Vec<Command> = Vec::new();
        match self.state {
            State::Uninitialized => {},
            _ => {
                assert(views(commands@) =~= Seq::empty());
                return commands;
            },
        }
        let argv = if self.argv.len() == 0 {
            None
        } else {
            Some(clone_strings(&self.argv))
        };
        commands.push(Command::EmbedInit { argc: self.argc, argv });
        assert(views(commands@) =~= seq![old(self)@.embed_init()]);
        let hook = match self.on_init.take() {
            Some(hook) => hook,
            None => Vec::new(),
        };
        assert(hook@ =~= old(self)@.registrations());
        let ghost base = self.bindings@;
        let ghost first = views(commands@);
        for registration in it: hook
            invariant
                it.seq() == hook@,
                self.bindings@ == base + carried(hook@.take(it.index() as int)),
                views(commands@) == first + registered(
                    hook@.take(it.index() as int),
                    base.len(),
                ),
                all_sendable(views(commands@)),
                self.awaited == old(self).awaited,
                self.argc == old(self).argc,
                self.argv == old(self).argv,
                self.on_init is None,
        {
            proof {
                let done = hook@.take(it.index() as int);
                let next = hook@.take(it.index() + 1);
                assert(next.drop_last() =~= done);
                assert(next.last() == registration);
            }
            let ghost before = commands@;
            let (name, what) = registration.into_parts();
            match what {
                Registered::Variable(value) => {
                    commands.push(Command::RegisterVariable { name, slot: self.bindings.len() });
                    self.bindings.push(value);
                },
                Registered::Constant(value) => {
                    commands.push(Command::RegisterConstant { name, slot: self.bindings.len() });
                    self.bindings.push(value);
                },
                Registered::Function(function) => {
                    commands.push(Command::RegisterFunction { name, function, num_args: 0 });
                },
            }
            proof {
                lemma_views_push(before, commands@.last());
                let done = hook@.take(it.index() as int);
                let next = hook@.take(it.index() + 1);
                assert(self.bindings@ =~= base + carried(next));
                assert(views(commands@) =~= first + registered(next, base.len()));
            }
        }
        assert(hook@.take(hook@.len() as int) =~= hook@);
        self.state = State::Initialized;
        commands
    }

    /// Asks for `command` once the runtime runs, and waits for what it
    /// hands back.
    fn run(&mut self, command: Command, awaited: Awaited) -> (commands: Vec<Command>)
        requires
            command@.sendable(),
        ensures
            final(self)@ == old(self)@.run(command@, awaited).0,
            views(commands@) == old(self)@.run(command@, awaited).1,
            all_sendable(views(commands@)),
    {
        let mut commands = self.init();
        proof {
            lemma_views_push(commands@, command);
        }
        commands.push(command);
        self.awaited = awaited;
        commands
    }

    /// Bind a variable to the context.
    /// The variable will be available to the code that runs next as a global
    /// variable. The value is kept until that code has run.
    pub fn bind(&mut self, name: &str, value: Value) -> (commands: Vec<Command>)
        requires
            nul_free(name@),
            !(old(self)@.state is Closed),
        ensures
            final(self)@ == old(self)@.bind(name@, value).0,
            views(commands@) == old(self)@.bind(name@, value).1,
            all_sendable(views(commands@)),
    {
        let mut commands = self.init();
        let command = Command::RegisterVariable { name: name.to_owned(), slot: self.bindings.len() };
        proof {
            lemma_views_push(commands@, command);
        }
        commands.push(command);
        self.bindings.push(value);
        commands
    }

    /// Define a constant in the context.
    /// The constant will be available to the code that runs next as a global
    /// constant. The value is kept until that code has run.
    pub fn define(&mut self, name: &str, value: Value) -> (commands: Vec<Command>)
        requires
            nul_free(name@),
            !(old(self)@.state is Closed),
        ensures
            final(self)@ == old(self)@.define(name@, value).0,
            views(commands@) == old(self)@.define(name@, value).1,
            all_sendable(views(commands@)),
    {
        let mut commands: Vec<Command> = Vec::new();
        commands.push(Command::RegisterConstant { name: name.to_owned(), slot: self.bindings.len() });
        self.bindings.push(value);
        assert(views(commands@) =~= old(self)@.define(name@, value).1);
        commands
    }

    /// Define a new function in the context.
    pub fn define_function(&mut self, name: &str, function: FunctionImplementation) -> (commands:
        Vec<Command>)
        requires
            nul_free(name@),
            !(old(self)@.state is Closed),
        ensures
            final(self)@ == old(self)@,
            views(commands@) == old(self)@.define_function(name@, function).1,
            all_sendable(views(commands@)),
    {
        let mut commands: Vec<Command> = Vec::new();
        commands.push(Command::RegisterFunction { name: name.to_owned(), function, num_args: 0 });
        assert(views(commands@) =~= old(self)@.define_function(name@, function).1);
        commands
    }

    /// Execute a script file. What it returns is handed to `complete`.
    pub fn execute_file(&mut self, file: &str) -> (commands: Vec<Command>)
        requires
            nul_free(file@),
            !(old(self)@.state is Closed),
        ensures
            final(self)@ == old(self)@.execute_file(file@).0,
            views(commands@) == old(self)@.execute_file(file@).1,
            all_sendable(views(commands@)),
    {
        self.run(Command::ExecuteFile { path: file.to_owned() }, Awaited::Evaluation)
    }

    /// Evaluate an expression. Its value is handed to `complete`.
    pub fn result_of(&mut self, expression: &str) -> (commands: Vec<Command>)
        requires
            nul_free(expression@),
            !(old(self)@.state is Closed),
        ensures
            final(self)@ == old(self)@.result_of(expression@).0,
            views(commands@) == old(self)@.result_of(expression@).1,
            all_sendable(views(commands@)),
    {
        self.run(
            Command::EvalString {
                source: expression.to_owned(),
                script_name: "eval'd code".to_owned(),
            },
            Awaited::Evaluation,
        )
    }

    /// Call a function of the runtime with no arguments. Its result is
    /// handed to `complete`.
    pub fn call(&mut self, name: &str) -> (commands: Vec<Command>)
        requires
            nul_free(name@),
            !(old(self)@.state is Closed),
        ensures
            final(self)@ == old(self)@.call(name@).0,
            views(commands@) == old(self)@.call(name@).1,
            all_sendable(views(commands@)),
    {
        self.run(Command::CallFunction { name: name.to_owned(), params: Vec::new() }, Awaited::Call)
    }

    /// Call a function of the runtime with arguments. Its result is handed
    /// to `complete`.
    pub fn call_with(&mut self, name: &str, args: Vec<Value>) -> (commands: Vec<Command>)
        requires
            nul_free(name@),
            !(old(self)@.state is Closed),
            args@.len() <= u32::MAX,
        ensures
            final(self)@ == old(self)@.call_with(name@, args@).0,
            views(commands@) == old(self)@.call_with(name@, args@).1,
            all_sendable(views(commands@)),
    {
        self.run(Command::CallFunction { name: name.to_owned(), params: args }, Awaited::Call)
    }

    /// Takes the cell that the runtime handed back and wraps it. After an
    /// evaluation or a script the kept values are released: what was bound
    /// is gone for the code that runs next. After a call they stay.
    pub fn complete(&mut self, retval: Cell) -> (value: Value)
        requires
            retval.well_tagged(),
        ensures
            value.cell() == retval,
            final(self)@ == old(self)@.complete(),
    {
        match self.awaited {
            Awaited::Evaluation => {
                self.bindings.clear();
            },
            _ => {},
        }
        self.awaited = Awaited::Nothing;
        Value::new(retval)
    }

    /// Close the execution context. The answer is the call that shuts the
    /// runtime down, where it runs.
    pub fn close(&mut self) -> (command: Option<Command>)
        ensures
            final(self)@ == old(self)@.close().0,
            old(self)@.close().1 == match command {
                Some(command) => Some(command@),
                None => None,
            },
    {
        match self.state {
            State::Initialized => {
                self.state = State::Closed;
                Some(Command::EmbedShutdown)
            },
            _ => None,
        }
    }
}

/// Closing a context a second time, or closing one that was never
/// initialised, changes nothing and shuts nothing down.
pub proof fn lemma_close_idempotent(context: ContextView)
    ensures
        context.close().0.close() == (context.close().0, None::<CommandView>),
        context.state is Uninitialized ==> context.close() == (context, None::<CommandView>),
        context.close().1 is Some <==> context.state is Initialized,
{
}

/// The runtime is started once and the hook runs once: initialising again
/// asks for nothing and changes nothing.
pub proof fn lemma_init_once(context: ContextView)
    ensures
        context.init().0.init() == (context.init().0, Seq::<CommandView>::empty()),
        context.init().0.hook is None || !(context.state is Uninitialized),
{
}

/// A value bound before an evaluation is kept while that evaluation runs,
/// and the evaluation after it starts with nothing bound.
pub proof fn lemma_binding_lifetime(
    context: ContextView,
    name: Seq<char>,
    value: Value,
    first: Seq<char>,
    second: Seq<char>,
)
    requires
        !(context.state is Closed),
    ensures
        ({
            let bound = context.bind(name, value).0;
            let during = bound.result_of(first).0;
            let after = during.complete().result_of(second);
            &&& during.bindings == bound.bindings
            &&& during.bindings.last() == value
            &&& after.0.bindings.len() == 0
            &&& after.1 == seq![
                CommandView::EvalString { source: second, script_name: "eval'd code"@ },
            ]
        }),
{
    let bound = context.bind(name, value).0;
    let during = bound.result_of(first).0;
    let after = during.complete().result_of(second);
    assert(after.1 =~= seq![
        CommandView::EvalString { source: second, script_name: "eval'd code"@ },
    ]);
}

/// A call of a function releases nothing: what was bound before it is
/// still kept when its result has come.
pub proof fn lemma_call_keeps_bindings(context: ContextView, name: Seq<char>, args: Seq<Value>)
    ensures
        context.call_with(name, args).0.complete().bindings == context.init().0.bindings,
        context.call(name).0.complete().bindings == context.init().0.bindings,
        context.init().0.bindings.take(context.bindings.len() as int) == context.bindings,
{
    assert(context.init().0.bindings.take(context.bindings.len() as int) =~= context.bindings);
}

} // verus!
