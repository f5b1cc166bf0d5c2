use devrs::cli::ArgsError;
use devrs::commands::blueprint::create::{
    build_template_context, parse_key_val, to_camel_case, to_pascal_case, to_snake_case, CreateArgs,
};
use devrs::commands::blueprint::info::InfoArgs;
use devrs::commands::blueprint::list::ListArgs;
use devrs::commands::blueprint::{BlueprintArgs, BlueprintCommand};

#[test]
fn test_parses_blueprint_list() {
    let result = BlueprintArgs::try_parse_from(&["blueprint", "list"]);
    assert!(result.is_ok());
    match result.unwrap().command {
        BlueprintCommand::List(_) => {}
        _ => panic!("Incorrect subcommand parsed for 'list'"),
    }
}

#[test]
fn test_parses_blueprint_create() {
    let result = BlueprintArgs::try_parse_from(&["blueprint", "create", "--lang", "rust", "my-project"]);
    assert!(result.is_ok());
    match result.unwrap().command {
        BlueprintCommand::Create(_) => {}
        _ => panic!("Incorrect subcommand parsed for 'create'"),
    }
}

#[test]
fn test_parses_blueprint_info() {
    let result = BlueprintArgs::try_parse_from(&["blueprint", "info", "rust"]);
    assert!(result.is_ok());
    match result.unwrap().command {
        BlueprintCommand::Info(_) => {}
        _ => panic!("Incorrect subcommand parsed for 'info'"),
    }
}

#[test]
fn test_info_args_parsing() {
    let args = InfoArgs::try_parse_from(&["info", "my-blueprint"]).unwrap();
    assert_eq!(args.blueprint_name, "my-blueprint");
}

#[test]
fn test_info_args_requires_name() {
    let result = InfoArgs::try_parse_from(&["info"]);
    assert!(result.is_err(), "Should fail without blueprint name");
}

#[test]
fn list_takes_no_arguments() {
    assert!(ListArgs::try_parse_from(&["list"]).is_ok());
    assert!(ListArgs::try_parse_from(&["list", "extra"]).is_err());
}

#[test]
fn test_create_args_parsing() {
    let args = CreateArgs::try_parse_from(&["create", "--lang", "rust", "my-project"]).unwrap();
    assert_eq!(args.lang, "rust");
    assert_eq!(args.project_name, "my-project");
    assert!(args.output.is_none());
    assert!(!args.force);
    assert!(args.var.is_empty());

    let args_full = CreateArgs::try_parse_from(&[
        "create",
        "--lang",
        "go",
        "--output",
        "/tmp/projects",
        "--force",
        "--var",
        "author=Jane Doe",
        "--var",
        "version=1.0.0",
        "awesome-api",
    ])
    .unwrap();
    assert_eq!(args_full.lang, "go");
    assert_eq!(args_full.project_name, "awesome-api");
    assert_eq!(args_full.output, Some("/tmp/projects".to_string()));
    assert!(args_full.force);
    assert!(args_full.var.contains(&("author".to_string(), "Jane Doe".to_string())));
    assert!(args_full.var.contains(&("version".to_string(), "1.0.0".to_string())));
}

#[test]
fn test_create_args_requires_lang_and_name() {
    assert!(CreateArgs::try_parse_from(&["create", "my-project"]).is_err());
    assert!(CreateArgs::try_parse_from(&["create", "--lang", "rust"]).is_err());
}

#[test]
fn create_rejects_a_variable_without_equals() {
    match CreateArgs::try_parse_from(&["create", "-l", "rust", "p", "--var", "a=1", "--var", "oops"]) {
        Err(ArgsError::Rejected(m)) => {
            assert!(m.contains("invalid value 'oops' for '--var"), "{}", m);
            assert!(m.contains("Invalid variable format: 'oops'. Expected format: KEY=VALUE"), "{}", m);
        }
        other => panic!("unexpected {:?}", other),
    }
}

#[test]
fn create_keeps_variables_in_order() {
    let args = CreateArgs::try_parse_from(&["create", "-l", "rust", "p", "--var", "b=2", "--var", " a = 1 "]).unwrap();
    assert_eq!(
        args.var,
        vec![("b".to_string(), "2".to_string()), ("a".to_string(), "1".to_string())]
    );
}

#[test]
fn test_parse_key_val_logic() {
    let (k, v) = parse_key_val("name=value").unwrap();
    assert_eq!(k, "name");
    assert_eq!(v, "value");
    let (k_pad, v_pad) = parse_key_val("  padded_key  =  padded value ").unwrap();
    assert_eq!(k_pad, "padded_key");
    assert_eq!(v_pad, "padded value");
    assert!(parse_key_val("invalid_no_equals").is_err());
    assert!(parse_key_val("").is_err());
    assert!(parse_key_val("keyonly=").is_ok());
    let (k_only, v_only) = parse_key_val("keyonly=").unwrap();
    assert_eq!(k_only, "keyonly");
    assert_eq!(v_only, "");
    assert!(parse_key_val("=valueonly").is_ok());
    let (k_empty, v_val) = parse_key_val("=valueonly").unwrap();
    assert_eq!(k_empty, "");
    assert_eq!(v_val, "valueonly");
}

#[test]
fn test_case_conversion_logic() {
    assert_eq!(to_camel_case("my-project"), "myProject");
    assert_eq!(to_camel_case("my_project"), "myProject");
    assert_eq!(to_camel_case("awesome-api-service"), "awesomeApiService");
    assert_eq!(to_camel_case("simple"), "simple");
    assert_eq!(to_camel_case("AlreadyCamel"), "alreadyCamel");
    assert_eq!(to_camel_case("PascalCase"), "pascalCase");
    assert_eq!(to_camel_case(""), "");

    assert_eq!(to_pascal_case("my-project"), "MyProject");
    assert_eq!(to_pascal_case("my_project"), "MyProject");
    assert_eq!(to_pascal_case("awesome-api-service"), "AwesomeApiService");
    assert_eq!(to_pascal_case("simple"), "Simple");
    assert_eq!(to_pascal_case("alreadyCamel"), "AlreadyCamel");
    assert_eq!(to_pascal_case("PascalCase"), "PascalCase");
    assert_eq!(to_pascal_case(""), "");

    assert_eq!(to_snake_case("my-project"), "my_project");
    assert_eq!(to_snake_case("myProject"), "myproject");
    assert_eq!(to_snake_case("PascalCase"), "pascalcase");
    assert_eq!(to_snake_case("already_snake"), "already_snake");
    assert_eq!(to_snake_case(""), "");
}

#[test]
fn test_build_template_context_logic() {
    let args = CreateArgs {
        lang: "test".into(),
        project_name: "my-App".into(),
        output: None,
        force: false,
        var: vec![
            ("custom_key".into(), "custom_val".into()),
            ("project_name".into(), "override".into()),
            ("project_name_snake".into(), "user_snake".into()),
        ],
    };
    let context = build_template_context(&args, "tester");
    assert_eq!(context.get("project_name").unwrap(), "override");
    assert_eq!(context.get("project_name_lowercase").unwrap(), "my-app");
    assert_eq!(context.get("project_name_uppercase").unwrap(), "MY-APP");
    assert_eq!(context.get("project_name_kebab").unwrap(), "my-App");
    assert_eq!(context.get("project_name_snake").unwrap(), "user_snake");
    assert_eq!(context.get("project_name_camel").unwrap(), "myApp");
    assert_eq!(context.get("project_name_pascal").unwrap(), "MyApp");
    assert!(context.get("current_date").is_some());
    assert!(context.get("current_year").is_some());
    assert!(context.get("current_time").is_some());
    assert_eq!(context.get("username").unwrap(), "tester");
    assert_eq!(context.get("custom_key").unwrap(), "custom_val");
}

#[test]
fn repeated_variable_takes_its_last_value() {
    let args = CreateArgs {
        lang: "rust".into(),
        project_name: "demo".into(),
        output: None,
        force: false,
        var: vec![("k".into(), "first".into()), ("k".into(), "second".into())],
    };
    let context = build_template_context(&args, "tester");
    assert_eq!(context.get("k").unwrap(), "second");
    assert_eq!(context.get("project_name").unwrap(), "demo");
    assert_eq!(context.get("missing"), None);
}

#[test]
fn camel_case_lowercases_a_leading_capital_run() {
    assert_eq!(to_camel_case("HTTPRequest"), "httpRequest");
    assert_eq!(to_camel_case("HTTP"), "http");
    assert_eq!(to_camel_case("ABc"), "aBc");
    assert_eq!(to_camel_case("URL-parser"), "urlParser");
    assert_eq!(to_camel_case("-HTTP"), "HTTP");
}
