use autogen_rust::registry::{first_arg, FunctionRegistry};

type Callable = fn(String) -> Result<String, String>;

fn shout(s: String) -> Result<String, String> {
    Ok(format!("{}!", s))
}

fn refuse(_s: String) -> Result<String, String> {
    Err("refused".to_string())
}

fn quiet(s: String) -> Result<String, String> {
    Ok(s)
}

#[test]
fn registered_function_is_called_with_the_first_value() {
    let mut reg: FunctionRegistry<Callable, Callable> = FunctionRegistry::new();
    reg.register_sync_function("shout", shout);
    assert_eq!(reg.call_sync("shout", "{\"word\": \"hey\"}"), Ok("hey!".to_string()));
}

#[test]
fn unknown_function_is_an_error_not_a_panic() {
    let reg: FunctionRegistry<Callable, Callable> = FunctionRegistry::new();
    assert_eq!(reg.call_sync("missing", "{}"), Err("Function not found".to_string()));
}

#[test]
fn later_registration_shadows_the_earlier_one() {
    let mut reg: FunctionRegistry<Callable, Callable> = FunctionRegistry::new();
    reg.register_sync_function("f", shout);
    reg.register_sync_function("f", refuse);
    assert_eq!(reg.call_sync("f", "{\"a\": \"b\"}"), Err("refused".to_string()));
}

#[test]
fn argument_text_without_a_pair_passes_the_empty_string() {
    let mut reg: FunctionRegistry<Callable, Callable> = FunctionRegistry::new();
    reg.register_sync_function("quiet", quiet);
    assert_eq!(reg.call_sync("quiet", "no quoted pair here"), Ok(String::new()));
}

#[test]
fn async_entries_are_stored_for_the_driver() {
    let mut reg: FunctionRegistry<Callable, Callable> = FunctionRegistry::new();
    reg.register_async_function("later", quiet);
    assert_eq!(reg.async_functions.len(), 1);
    assert_eq!(reg.async_functions[0].0, "later");
}

#[test]
fn first_arg_reads_the_first_quoted_pair() {
    assert_eq!(first_arg("{\"query\": \"rust\", \"n\": \"3\"}"), "rust");
    assert_eq!(first_arg("\"key\":\"value\""), "value");
    assert_eq!(first_arg("nothing quoted"), "");
    assert_eq!(first_arg("\"unclosed"), "");
}
