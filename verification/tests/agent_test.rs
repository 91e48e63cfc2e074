use snake_core::agent::{AgentError, validate_agent_code, validate_agent_name};

#[test]
fn validate_accepts_simple_name() {
    assert!(validate_agent_name("My Agent").is_ok());
}

#[test]
fn validate_accepts_name_with_numbers() {
    assert!(validate_agent_name("Agent 123").is_ok());
}

#[test]
fn validate_accepts_name_with_hyphens_and_underscores() {
    assert!(validate_agent_name("my-agent_v2").is_ok());
}

#[test]
fn validate_accepts_single_character() {
    assert!(validate_agent_name("A").is_ok());
}

#[test]
fn validate_accepts_50_characters() {
    let name = "a".repeat(50);
    assert!(validate_agent_name(&name).is_ok());
}

#[test]
fn validate_rejects_empty_name() {
    assert!(matches!(
        validate_agent_name(""),
        Err(AgentError::NameEmpty)
    ));
}

#[test]
fn validate_rejects_whitespace_only() {
    assert!(matches!(
        validate_agent_name("   "),
        Err(AgentError::NameEmpty)
    ));
}

#[test]
fn validate_rejects_name_over_50_characters() {
    let name = "a".repeat(51);
    assert!(matches!(
        validate_agent_name(&name),
        Err(AgentError::NameTooLong)
    ));
}

#[test]
fn validate_rejects_special_characters() {
    assert!(matches!(
        validate_agent_name("Agent!"),
        Err(AgentError::NameInvalidCharacters)
    ));
}

#[test]
fn validate_rejects_emoji() {
    assert!(matches!(
        validate_agent_name("Agent 🤖"),
        Err(AgentError::NameInvalidCharacters)
    ));
}

#[test]
fn validate_rejects_newlines() {
    assert!(matches!(
        validate_agent_name("Agent\nName"),
        Err(AgentError::NameInvalidCharacters)
    ));
}

#[test]
fn validate_code_accepts_valid_code() {
    assert!(validate_agent_code("-- Lua comment").is_ok());
}

#[test]
fn validate_code_accepts_valid_lua_function() {
    let code = r#"
        function think()
            local x = 10
            return x + 5
        end
    "#;
    assert!(validate_agent_code(code).is_ok());
}

#[test]
fn validate_code_accepts_valid_lua_with_loops() {
    let code = r#"
        for i = 1, 10 do
            print(i)
        end
    "#;
    assert!(validate_agent_code(code).is_ok());
}

#[test]
fn validate_code_rejects_empty() {
    assert!(matches!(
        validate_agent_code(""),
        Err(AgentError::CodeEmpty)
    ));
}

#[test]
fn validate_code_rejects_whitespace_only() {
    assert!(matches!(
        validate_agent_code("   \n\t  "),
        Err(AgentError::CodeEmpty)
    ));
}

#[test]
fn validate_code_rejects_invalid_syntax() {
    // Missing 'end' keyword
    let code = "function broken()";
    assert!(matches!(
        validate_agent_code(code),
        Err(AgentError::InvalidLuaSyntax(_))
    ));
}

#[test]
fn validate_code_rejects_syntax_error() {
    // Invalid Lua syntax
    let code = "if x then print(x)"; // missing 'end'
    assert!(matches!(
        validate_agent_code(code),
        Err(AgentError::InvalidLuaSyntax(_))
    ));
}

#[test]
fn validate_code_rejects_malformed_expression() {
    let code = "local x = 5 +"; // incomplete expression
    assert!(matches!(
        validate_agent_code(code),
        Err(AgentError::InvalidLuaSyntax(_))
    ));
}

#[test]
fn invalid_syntax_message_is_cleaned() {
    // The interpreter prefixes messages with a chunk position such as
    // `[string "..."]:1:`; the recorded message must not carry it.
    match validate_agent_code("function broken()") {
        Err(AgentError::InvalidLuaSyntax(msg)) => {
            assert!(!msg.contains("]:"));
            assert!(!msg.is_empty());
        }
        other => panic!("expected InvalidLuaSyntax, got {:?}", other),
    }
}

#[test]
fn agent_error_messages() {
    assert_eq!(AgentError::NameEmpty.message(), "Agent name is required.");
    assert_eq!(
        AgentError::NameTooLong.message(),
        "Agent name must be at most 50 characters."
    );
    assert_eq!(
        AgentError::NameInvalidCharacters.message(),
        "Agent name can only contain letters, numbers, spaces, hyphens, and underscores."
    );
    assert_eq!(AgentError::CodeEmpty.message(), "Agent code is required.");
    assert_eq!(
        AgentError::InvalidLuaSyntax(String::from("oops")).message(),
        "Invalid Lua syntax: oops"
    );
}
