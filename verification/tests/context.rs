use libphp::exec::{Command, Context, FunctionImplementation, Registration, State};
use libphp::value::{Cell, Value};

fn is_embed_init(command: &Command, count: i32, arguments: Option<&[&str]>) -> bool {
    match command {
        Command::EmbedInit { argc, argv } => {
            *argc == count
                && match (argv, arguments) {
                    (None, None) => true,
                    (Some(have), Some(want)) => {
                        have.iter().map(|s| s.as_str()).collect::<Vec<&str>>() == want
                    }
                    _ => false,
                }
        }
        _ => false,
    }
}

fn is_eval(command: &Command, text: &str) -> bool {
    matches!(command, Command::EvalString { source, script_name }
        if source == text && script_name == "eval'd code")
}

#[test]
fn a_new_context_is_uninitialized() {
    let context = Context::new();
    assert!(matches!(context.state(), State::Uninitialized));
    assert!(!context.is_closed());
    assert!(context.binding(0).is_none());
}

#[test]
fn the_first_evaluation_starts_the_runtime() {
    let mut context = Context::new();
    let commands = context.result_of("100_000_000");
    assert_eq!(commands.len(), 2);
    assert!(is_embed_init(&commands[0], 0, None));
    assert!(is_eval(&commands[1], "100_000_000"));
    assert!(matches!(context.state(), State::Initialized));
    let value = context.complete(Cell::Long(100_000_000));
    assert_eq!(value.to_int(), 100_000_000);

    let commands = context.result_of("true");
    assert_eq!(commands.len(), 1);
    assert!(is_eval(&commands[0], "true"));
}

#[test]
fn arguments_are_handed_over_when_there_are_some() {
    let mut context = Context::new();
    context.argc(2);
    context.argv(vec!["host".to_string(), "-q".to_string()]);
    let commands = context.init();
    assert_eq!(commands.len(), 1);
    assert!(is_embed_init(&commands[0], 2, Some(&["host", "-q"])));

    let mut bare = Context::new();
    bare.argc(3);
    let commands = bare.init();
    assert!(is_embed_init(&commands[0], 3, None));
    assert!(bare.init().is_empty());
}

#[test]
fn the_hook_runs_once_right_after_the_start() {
    let mut context = Context::new();
    context.on_init(vec![
        Registration::variable("myVar", Value::from_str("Hello")),
        Registration::function("hello_world", FunctionImplementation(7)),
        Registration::constant("EXAMPLE", Value::from(5i64)),
    ]);
    let commands = context.result_of("$myVar");
    assert_eq!(commands.len(), 5);
    assert!(is_embed_init(&commands[0], 0, None));
    assert!(matches!(&commands[1], Command::RegisterVariable { name, slot: 0 } if name == "myVar"));
    assert!(matches!(&commands[2],
        Command::RegisterFunction { name, function: FunctionImplementation(7), num_args: 0 }
        if name == "hello_world"));
    assert!(matches!(&commands[3], Command::RegisterConstant { name, slot: 1 } if name == "EXAMPLE"));
    assert!(is_eval(&commands[4], "$myVar"));
    assert_eq!(context.binding(0).unwrap().as_str(), "Hello");
    assert_eq!(context.binding(1).unwrap().to_int(), 5);
    assert!(context.binding(2).is_none());
    context.complete(Cell::Null);

    let again = context.result_of("$myVar");
    assert_eq!(again.len(), 1);
    assert!(context.init().is_empty());
}

#[test]
fn a_binding_lives_until_the_evaluation_has_ended() {
    let mut context = Context::new();
    let commands = context.bind("answer", Value::from(42i64));
    assert_eq!(commands.len(), 2);
    assert!(is_embed_init(&commands[0], 0, None));
    assert!(matches!(&commands[1], Command::RegisterVariable { name, slot: 0 } if name == "answer"));
    let commands = context.result_of("$answer");
    assert_eq!(commands.len(), 1);
    assert_eq!(context.binding(0).unwrap().to_int(), 42);
    let value = context.complete(Cell::Long(42));
    assert_eq!(value.to_int(), 42);
    assert!(context.binding(0).is_none());

    let commands = context.result_of("$answer");
    assert_eq!(commands.len(), 1);
    assert!(is_eval(&commands[0], "$answer"));
    assert!(context.binding(0).is_none());
    assert!(context.complete(Cell::Null).is_null());
}

#[test]
fn constants_and_functions_are_registered() {
    let mut context = Context::new();
    context.init();
    let commands = context.define("LIMIT", Value::from(10i64));
    assert_eq!(commands.len(), 1);
    assert!(matches!(&commands[0], Command::RegisterConstant { name, slot: 0 } if name == "LIMIT"));
    assert_eq!(context.binding(0).unwrap().to_int(), 10);
    let commands = context.bind("x", Value::null());
    assert_eq!(commands.len(), 1);
    assert!(matches!(&commands[0], Command::RegisterVariable { name, slot: 1 } if name == "x"));
    let commands = context.define_function("hello_world", FunctionImplementation(3));
    assert_eq!(commands.len(), 1);
    assert!(matches!(&commands[0],
        Command::RegisterFunction { name, function: FunctionImplementation(3), num_args: 0 }
        if name == "hello_world"));
    assert!(context.binding(2).is_none());
}

#[test]
fn a_script_is_run_and_its_bindings_released() {
    let mut context = Context::new();
    context.bind("x", Value::from(1i64));
    let commands = context.execute_file("./scripts/functions.php");
    assert_eq!(commands.len(), 1);
    assert!(matches!(&commands[0], Command::ExecuteFile { path } if path == "./scripts/functions.php"));
    assert!(context.binding(0).is_some());
    let value = context.complete(Cell::Null);
    assert!(value.is_null());
    assert!(context.binding(0).is_none());
}

#[test]
fn calls_carry_the_name_and_the_arguments() {
    let mut context = Context::new();
    let commands = context.call("phpversion");
    assert_eq!(commands.len(), 2);
    assert!(is_embed_init(&commands[0], 0, None));
    assert!(matches!(&commands[1], Command::CallFunction { name, params }
        if name == "phpversion" && params.is_empty()));

    let commands = context.call_with("strlen", vec![Value::from_str("Hello, world!")]);
    assert_eq!(commands.len(), 1);
    match &commands[0] {
        Command::CallFunction { name, params } => {
            assert_eq!(name, "strlen");
            assert_eq!(params.len(), 1);
            assert_eq!(params[0].as_str(), "Hello, world!");
        }
        _ => panic!("not a call"),
    }
    let length = Value::new(Cell::Long(13));
    assert!(length.is_int());
    assert_eq!(length.to_int(), 13);
}

#[test]
fn a_call_does_not_release_what_was_bound() {
    let mut context = Context::new();
    context.bind("x", Value::from(1i64));
    context.call("phpversion");
    let version = context.complete(Cell::String(b"8.2.0".to_vec()));
    assert_eq!(version.as_str(), "8.2.0");
    assert_eq!(context.binding(0).unwrap().to_int(), 1);
    context.call_with("strlen", vec![Value::from_str("Hello, world!")]);
    let length = context.complete(Cell::Long(13));
    assert_eq!(length.to_int(), 13);
    assert_eq!(context.binding(0).unwrap().to_int(), 1);
    context.result_of("$x");
    context.complete(Cell::Long(1));
    assert!(context.binding(0).is_none());
}

#[test]
fn a_cell_that_nothing_waited_for_releases_nothing() {
    let mut context = Context::new();
    context.bind("x", Value::from(1i64));
    assert!(context.complete(Cell::True).is_true());
    assert!(context.binding(0).is_some());
}

#[test]
fn closing_twice_shuts_down_once() {
    let mut context = Context::new();
    context.result_of("1");
    context.complete(Cell::Long(1));
    assert!(matches!(context.close(), Some(Command::EmbedShutdown)));
    assert!(context.is_closed());
    assert!(matches!(context.state(), State::Closed));
    assert!(context.close().is_none());
    assert!(context.close().is_none());
    assert!(context.is_closed());
}

#[test]
fn closing_a_context_that_never_ran_does_nothing() {
    let mut context = Context::new();
    assert!(context.close().is_none());
    assert!(matches!(context.state(), State::Uninitialized));
    assert!(context.close().is_none());
    let commands = context.result_of("null");
    assert_eq!(commands.len(), 2);
}

#[test]
fn a_closed_context_is_not_started_again() {
    let mut context = Context::new();
    context.init();
    context.close();
    assert!(context.init().is_empty());
    assert!(context.is_closed());
}

#[test]
fn a_call_with_no_argument_is_a_plain_call() {
    let mut context = Context::new();
    context.init();
    let commands = context.call_with("phpversion", Vec::new());
    assert_eq!(commands.len(), 1);
    assert!(matches!(&commands[0], Command::CallFunction { name, params }
        if name == "phpversion" && params.is_empty()));
}

#[test]
fn the_default_context_is_a_new_one() {
    let mut context = Context::default();
    assert!(matches!(context.state(), State::Uninitialized));
    let commands = context.init();
    assert_eq!(commands.len(), 1);
    assert!(is_embed_init(&commands[0], 0, None));
}
