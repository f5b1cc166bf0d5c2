use devrs::chatbot::Chatbot;

#[test]
fn responds_to_greetings() {
    let bot = Chatbot::new("TestBot");
    assert_eq!(bot.respond("hi"), "Hello! How can I help you today?");
    assert_eq!(bot.respond("HELLO"), "Hello! How can I help you today?");
    assert_eq!(bot.respond("  hi "), "Hello! How can I help you today?");
}

#[test]
fn result_is_ok_for_valid_input() {
    let bot = Chatbot::new("Rusty");
    let reply = bot
        .try_respond("how are you?")
        .expect("Chatbot failed to respond");
    assert_eq!(reply, "I'm just code, but I'm running smoothly.");
}

#[test]
fn result_is_err_for_empty_input() {
    let bot = Chatbot::new("Rusty");
    let result = bot.try_respond("");
    assert!(result.is_err());
    assert_eq!(result.unwrap_err(), "Input cannot be empty.");
}

#[test]
fn respond_fallback_for_empty_input() {
    let bot = Chatbot::new("Rusty");
    assert_eq!(bot.respond(""), "I'm not sure how to respond to that.");
}

#[test]
fn test_greetings() {
    let bot = Chatbot::new("TestBot");
    assert_eq!(bot.respond("hi"), "Hello! How can I help you today?");
    assert_eq!(bot.respond("HELLO"), "Hello! How can I help you today?");
    assert_eq!(bot.respond("  hi "), "Hello! How can I help you today?");
}

#[test]
fn test_status_response() {
    let bot = Chatbot::new("TestBot");
    assert_eq!(
        bot.respond("how are you?"),
        "I'm just code, but I'm running smoothly."
    );
}

#[test]
fn test_dynamic_name_usage() {
    let bot = Chatbot::new("Rusty");
    assert_eq!(bot.respond("what's your name?"), "My name is Rusty.");
}

#[test]
fn test_help_command() {
    let bot = Chatbot::new("TestBot");
    assert_eq!(
        bot.respond("help"),
        "Try typing 'hi', 'how are you?', or 'what's your name?'."
    );
}

#[test]
fn test_unknown_inputs() {
    let bot = Chatbot::new("TestBot");
    assert_eq!(bot.respond("tell me a joke"), "I'm not sure how to respond to that.");
    assert_eq!(bot.respond("What is the meaning of life?"), "I'm not sure how to respond to that.");
    assert_eq!(bot.respond(""), "I'm not sure how to respond to that.");
}

#[test]
fn test_try_respond_success() {
    let bot = Chatbot::new("Rusty");
    let result = bot.try_respond("what's your name?");
    assert!(result.is_ok());
    assert_eq!(result.unwrap(), "My name is Rusty.");
}

#[test]
fn test_try_respond_error() {
    let bot = Chatbot::new("Rusty");
    let result = bot.try_respond("    ");
    assert!(result.is_err());
    assert_eq!(result.unwrap_err(), "Input cannot be empty.");
}

#[test]
fn respond_lowered_trims_but_keeps_case() {
    let bot = Chatbot::new("Rusty");
    assert_eq!(bot.respond_lowered("  help\t"), "Try typing 'hi', 'how are you?', or 'what's your name?'.");
    assert_eq!(bot.respond_lowered("HELP"), "I'm not sure how to respond to that.");
}

#[test]
fn try_respond_answers_the_trimmed_input() {
    let bot = Chatbot::new("Ann");
    assert_eq!(bot.try_respond("  What's Your Name?  ").unwrap(), "My name is Ann.");
    assert_eq!(bot.try_respond("\n\t").unwrap_err(), "Input cannot be empty.");
}

#[test]
fn try_respond_answers_what_respond_answers() {
    let bot = Chatbot::new("Rusty");
    for input in ["hi", "  HELLO\t", "\nWhat's Your Name?  ", "help ", "\u{a0}How are you?\u{3000}", "xyz"] {
        assert_eq!(bot.try_respond(input), Ok(bot.respond(input)));
    }
    assert_eq!(bot.try_respond(" \t\n"), Err("Input cannot be empty.".to_string()));
}
