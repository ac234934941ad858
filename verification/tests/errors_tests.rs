use gitie::errors::{exit_code_of, map_command_error, AIError, AppError, ConfigError, GitError};
use gitie::types::CommandOutput;
use std::io;

fn mock_reqwest_error() -> reqwest::Error {
    let invalid_proxy_url = "::not_a_valid_url::";
    match reqwest::Proxy::all(invalid_proxy_url) {
        Ok(_) => panic!("Proxy::all should have failed for the invalid URL: {}", invalid_proxy_url),
        Err(e) => e,
    }
}

fn mock_serde_json_error() -> serde_json::Error {
    serde_json::from_str::<serde_json::Value>("{invalid_json").err().unwrap()
}

#[test]
fn test_config_error_display() {
    let file_name = "test_config.json".to_string();
    let io_err = io::Error::new(io::ErrorKind::NotFound, "file not found");
    let json_err = mock_serde_json_error();

    let err_file_read = ConfigError::FileRead(file_name.clone(), io_err.to_string());
    assert_eq!(
        err_file_read.message(),
        "Failed to read file 'test_config.json': file not found"
    );

    let err_json_parse = ConfigError::JsonParse(file_name.clone(), json_err.to_string());
    assert!(err_json_parse
        .message()
        .starts_with("Failed to parse JSON from file 'test_config.json': "));

    let err_prompt_missing = ConfigError::PromptFileMissing("prompts/my_prompt".to_string());
    assert_eq!(
        err_prompt_missing.message(),
        "Critical prompt file 'prompts/my_prompt' is missing."
    );

    let git_config_io_err = io::Error::new(io::ErrorKind::PermissionDenied, "permission denied");
    let err_git_config_read =
        ConfigError::GitConfigRead("user name".to_string(), git_config_io_err.to_string());
    assert_eq!(
        err_git_config_read.message(),
        "Failed to read Git configuration for user name: permission denied"
    );
}

#[test]
fn test_git_error_display() {
    let io_err = io::Error::new(io::ErrorKind::Other, "diff generation failed");
    let err_diff = GitError::DiffError(io_err.to_string());
    assert_eq!(
        err_diff.message(),
        "Failed to get git diff: diff generation failed"
    );

    let err_not_repo = GitError::NotARepository;
    assert_eq!(
        err_not_repo.message(),
        "Not a git repository (or any of the parent directories)."
    );

    let err_no_staged = GitError::NoStagedChanges;
    assert_eq!(err_no_staged.message(), "No changes staged for commit.");

    let err_cmd_failed_simple = GitError::CommandFailed(
        "git version".to_string(),
        Some(128),
        "".to_string(),
        "fatal error".to_string(),
    );
    let actual_str_simple = err_cmd_failed_simple.message();
    let expected_str_simple =
        "Git command 'git version' failed with exit code 128\nStderr:\nfatal error";

    println!("Actual simple bytes: {:?}", actual_str_simple.as_bytes());
    println!("Expected simple bytes: {:?}", expected_str_simple.as_bytes());

    assert_eq!(actual_str_simple, expected_str_simple);

    let err_cmd_failed_full = GitError::CommandFailed(
        "git status".to_string(),
        Some(0),
        "on branch master".to_string(),
        "warning".to_string(),
    );
    let actual_str_full = err_cmd_failed_full.message();
    let expected_str_full =
        "Git command 'git status' failed with exit code 0\nStdout:\non branch master\nStderr:\nwarning";

    println!("Actual full bytes: {:?}", actual_str_full.as_bytes());
    println!("Expected full bytes: {:?}", expected_str_full.as_bytes());

    assert_eq!(actual_str_full, expected_str_full);

    let err_cmd_failed_no_code = GitError::CommandFailed(
        "git pull".to_string(),
        None,
        "".to_string(),
        "terminated".to_string(),
    );
    let actual_str_no_code = err_cmd_failed_no_code.message();
    let expected_str_no_code = "Git command 'git pull' failed\nStderr:\nterminated";

    println!("Actual no_code bytes: {:?}", actual_str_no_code.as_bytes());
    println!("Expected no_code bytes: {:?}", expected_str_no_code.as_bytes());

    assert_eq!(actual_str_no_code, expected_str_no_code);
}

#[test]
fn test_ai_error_display() {
    let req_err = mock_reqwest_error();
    let err_request_failed = AIError::RequestFailed(req_err.to_string());
    assert!(err_request_failed.message().starts_with("AI API request failed: "));

    let parse_err = mock_reqwest_error();
    let err_response_parse_failed = AIError::ResponseParseFailed(parse_err.to_string());
    assert!(err_response_parse_failed
        .message()
        .starts_with("Failed to parse AI API JSON response: "));

    let err_api_response = AIError::ApiResponseError(
        reqwest::StatusCode::INTERNAL_SERVER_ERROR.as_u16(),
        "Server meltdown".to_string(),
    );
    assert_eq!(
        err_api_response.message(),
        "AI API responded with error 500 Internal Server Error: Server meltdown"
    );

    let err_no_choice = AIError::NoChoiceInResponse;
    assert_eq!(err_no_choice.message(), "AI API response contained no choices.");

    let err_empty_message = AIError::EmptyMessage;
    assert_eq!(err_empty_message.message(), "AI returned an empty message.");
}

#[test]
fn test_app_error_display() {
    let config_err = ConfigError::PromptFileMissing("prompts/sys".to_string());
    let app_config_err = AppError::Config(config_err);
    assert_eq!(
        app_config_err.message(),
        "Configuration error: Critical prompt file 'prompts/sys' is missing."
    );

    let git_err = GitError::NotARepository;
    let app_git_err = AppError::Git(git_err);
    assert_eq!(
        app_git_err.message(),
        "Git command error: Not a git repository (or any of the parent directories)."
    );

    let ai_err = AIError::EmptyMessage;
    let app_ai_err = AppError::AI(ai_err);
    assert_eq!(
        app_ai_err.message(),
        "AI interaction error: AI returned an empty message."
    );

    let io_err = io::Error::new(io::ErrorKind::BrokenPipe, "pipe broke");
    let app_io_err = AppError::Io("writing to pipe".to_string(), io_err.to_string());
    assert_eq!(
        app_io_err.message(),
        "I/O error while writing to pipe: pipe broke"
    );
}

#[test]
fn config_error_messages_of_the_remaining_kinds() {
    assert_eq!(
        ConfigError::TomlParse("config.toml".to_string(), "expected a table".to_string()).message(),
        "Failed to parse TOML from file 'config.toml': expected a table"
    );
    assert_eq!(
        ConfigError::FieldMissing("api_url".to_string()).message(),
        "Required configuration field 'api_url' is missing."
    );
    assert_eq!(
        ConfigError::ConfigFileMissing("assets/config.example.toml".to_string()).message(),
        "Configuration file 'assets/config.example.toml' is missing."
    );
    assert_eq!(
        ConfigError::FileWrite("/home/u/.config/gitie/config.toml".to_string(), "disk full".to_string())
            .message(),
        "Failed to write file '/home/u/.config/gitie/config.toml': disk full"
    );
}

#[test]
fn passthrough_failure_message_with_and_without_code() {
    let with_code = GitError::PassthroughFailed {
        command: "git push".to_string(),
        status_code: Some(1),
    };
    assert_eq!(
        with_code.message(),
        "Git passthrough command 'git push' failed with exit code 1"
    );
    let without_code = GitError::PassthroughFailed {
        command: "git push".to_string(),
        status_code: None,
    };
    assert_eq!(without_code.message(), "Git passthrough command 'git push' failed");
}

#[test]
fn exit_code_in_message_is_decimal_for_extreme_values() {
    let lowest = GitError::CommandFailed("git x".to_string(), Some(i32::MIN), String::new(), String::new());
    assert_eq!(
        lowest.message(),
        format!("Git command 'git x' failed with exit code {}", i32::MIN)
    );
    let highest = GitError::CommandFailed("git x".to_string(), Some(i32::MAX), String::new(), String::new());
    assert_eq!(
        highest.message(),
        format!("Git command 'git x' failed with exit code {}", i32::MAX)
    );
    let negative = GitError::CommandFailed("git x".to_string(), Some(-7), String::new(), String::new());
    assert_eq!(negative.message(), "Git command 'git x' failed with exit code -7");
}

#[test]
fn status_line_follows_the_status_code_of_reqwest() {
    for code in [100u16, 200, 204, 301, 400, 401, 404, 418, 429, 500, 503, 599, 799, 999] {
        let status = reqwest::StatusCode::from_u16(code).unwrap();
        let expected = format!("AI API responded with error {}: body", status);
        assert_eq!(AIError::ApiResponseError(code, "body".to_string()).message(), expected);
    }
    assert_eq!(
        AIError::ApiResponseError(404, "gone".to_string()).message(),
        "AI API responded with error 404 Not Found: gone"
    );
    assert_eq!(
        AIError::ApiResponseError(799, String::new()).message(),
        "AI API responded with error 799 <unknown status code>: "
    );
}

#[test]
fn status_outside_the_range_of_status_codes_has_no_reason() {
    assert_eq!(
        AIError::ApiResponseError(42, "x".to_string()).message(),
        "AI API responded with error 42 <unknown status code>: x"
    );
    assert_eq!(
        AIError::ApiResponseError(0, "x".to_string()).message(),
        "AI API responded with error 0 <unknown status code>: x"
    );
    assert_eq!(
        AIError::ApiResponseError(u16::MAX, "x".to_string()).message(),
        "AI API responded with error 65535 <unknown status code>: x"
    );
}

#[test]
fn exit_codes_follow_the_failed_command() {
    assert_eq!(exit_code_of(&Ok(())), 0);
    let passthrough = AppError::Git(GitError::PassthroughFailed {
        command: "git push".to_string(),
        status_code: Some(3),
    });
    assert_eq!(passthrough.exit_code(), 3);
    assert_eq!(exit_code_of(&Err(passthrough)), 3);
    let killed = AppError::Git(GitError::PassthroughFailed {
        command: "git push".to_string(),
        status_code: None,
    });
    assert_eq!(killed.exit_code(), 128);
    let captured = AppError::Git(GitError::CommandFailed(
        "git diff".to_string(),
        Some(129),
        String::new(),
        String::new(),
    ));
    assert_eq!(captured.exit_code(), 129);
    let captured_killed = AppError::Git(GitError::CommandFailed(
        "git diff".to_string(),
        None,
        String::new(),
        String::new(),
    ));
    assert_eq!(captured_killed.exit_code(), 128);
    assert_eq!(AppError::Git(GitError::NoStagedChanges).exit_code(), 1);
    assert_eq!(AppError::Git(GitError::NotARepository).exit_code(), 1);
    assert_eq!(AppError::Git(GitError::DiffError("x".to_string())).exit_code(), 1);
    assert_eq!(AppError::AI(AIError::EmptyMessage).exit_code(), 1);
    assert_eq!(
        AppError::Config(ConfigError::FieldMissing("api_url".to_string())).exit_code(),
        1
    );
    assert_eq!(AppError::Io("a".to_string(), "b".to_string()).exit_code(), 1);
}

#[test]
fn command_error_keeps_what_the_command_left() {
    let output = CommandOutput {
        stdout: "out".to_string(),
        stderr: "err".to_string(),
        status_code: Some(2),
        success: false,
    };
    assert_eq!(
        map_command_error("git diff --staged", &output),
        GitError::CommandFailed(
            "git diff --staged".to_string(),
            Some(2),
            "out".to_string(),
            "err".to_string()
        )
    );
}

#[test]
fn specific_errors_convert_into_the_general_one() {
    let from_git: AppError = GitError::NotARepository.into();
    assert_eq!(from_git, AppError::Git(GitError::NotARepository));
    let from_ai: AppError = AIError::NoChoiceInResponse.into();
    assert_eq!(from_ai, AppError::AI(AIError::NoChoiceInResponse));
    let from_config: AppError = ConfigError::PromptFileMissing("p".to_string()).into();
    assert_eq!(
        from_config,
        AppError::Config(ConfigError::PromptFileMissing("p".to_string()))
    );
}
