use flowguard::command_parser::{
    parse_command, validate_git_push, validate_index_knowledge, validate_train_agent, CommandArgs,
    CommandKind, ParseError, ParsedCommand,
};

#[test]
fn test_parse_index_knowledge() {
    let text = r#"INDEX KNOWLEDGE
PATH="D:\PROJECTS\TRIZ_LOGS"
MODE="local"
PROFILE="triz_engineer""#;

    let result = parse_command(text);
    assert!(result.is_ok());

    let cmd = result.ok().unwrap();
    assert_eq!(cmd.kind, CommandKind::IndexKnowledge);
    assert_eq!(cmd.args.get("PATH"), Some(&"D:\\PROJECTS\\TRIZ_LOGS".to_string()));
    assert_eq!(cmd.args.get("MODE"), Some(&"local".to_string()));
    assert_eq!(cmd.args.get("PROFILE"), Some(&"triz_engineer".to_string()));
}

#[test]
fn test_parse_train_agent() {
    let text = r#"TRAIN AGENT
PROFILE="triz_engineer"
DATA_PATH="D:\WORLD_OLLAMA\docs\cases"
EPOCHS="3"
MODE="llama_factory""#;

    let result = parse_command(text);
    assert!(result.is_ok());

    let cmd = result.ok().unwrap();
    assert_eq!(cmd.kind, CommandKind::TrainAgent);
    assert_eq!(cmd.args.get("EPOCHS"), Some(&"3".to_string()));
}

#[test]
fn test_parse_git_push() {
    let text = r#"GIT PUSH
REPO_PATH="E:\WORLD_OLLAMA"
BRANCH="feature/agent-updates"
SUMMARY="Agent auto-updates: configs, docs, specs""#;

    let result = parse_command(text);
    assert!(result.is_ok());

    let cmd = result.ok().unwrap();
    assert_eq!(cmd.kind, CommandKind::GitPush);
}

#[test]
fn test_invalid_format() {
    let text = "INDEX KNOWLEDGE\nPATH=invalid_no_quotes";
    let result = parse_command(text);
    assert!(result.is_err());
}

#[test]
fn test_unknown_command() {
    let text = "UNKNOWN COMMAND\nKEY=\"VALUE\"";
    let result = parse_command(text);
    assert!(result.is_err());
}

#[test]
fn test_validate_index_missing_path() {
    let cmd = ParsedCommand {
        kind: CommandKind::IndexKnowledge,
        args: CommandArgs::new(),
    };
    let result = validate_index_knowledge(&cmd);
    assert!(result.is_err());
}

fn error_message(r: Result<ParsedCommand, ParseError>) -> String {
    match r {
        Ok(_) => panic!("expected a parse error"),
        Err(e) => e.message(),
    }
}

#[test]
fn empty_command_is_rejected() {
    assert_eq!(error_message(parse_command("   \n\t ")), "Команда не может быть пустой");
}

#[test]
fn command_name_is_case_insensitive() {
    let cmd = parse_command("  git push\r\nREPO_PATH = \"E:/repo\"  \n").ok().unwrap();
    assert_eq!(cmd.kind, CommandKind::GitPush);
    assert_eq!(cmd.args.get("REPO_PATH"), Some(&"E:/repo".to_string()));
}

#[test]
fn unknown_command_names_first_line() {
    assert_eq!(
        error_message(parse_command("DEPLOY NOW\nX=\"1\"")),
        "Неизвестный тип команды: DEPLOY NOW"
    );
}

#[test]
fn invalid_lines_are_numbered() {
    assert_eq!(
        error_message(parse_command("INDEX KNOWLEDGE\n\nPATH=unquoted")),
        "Неверный формат: Строка 3: значение должно быть в кавычках (KEY=\"VALUE\")"
    );
    assert_eq!(
        error_message(parse_command("INDEX KNOWLEDGE\nPATH")),
        "Неверный формат: Строка 2: ожидается формат KEY=\"VALUE\""
    );
    assert!(parse_command("INDEX KNOWLEDGE\nPATH=\"").is_err());
}

#[test]
fn later_key_replaces_earlier_value() {
    let cmd = parse_command("INDEX KNOWLEDGE\nPATH=\"a\"\nPATH=\"b=c\"\nMODE=\"\"").ok().unwrap();
    assert_eq!(cmd.args.get("PATH"), Some(&"b=c".to_string()));
    assert_eq!(cmd.args.get("MODE"), Some(&"".to_string()));
    assert_eq!(cmd.args.entries.len(), 2);
    assert!(!cmd.args.contains_key("PROFILE"));
}

fn parsed(text: &str) -> ParsedCommand {
    parse_command(text).ok().unwrap()
}

fn check_message(r: Result<(), ParseError>) -> String {
    match r {
        Ok(()) => "ok".to_string(),
        Err(e) => e.message(),
    }
}

#[test]
fn index_validation_checks_mode() {
    assert_eq!(
        check_message(validate_index_knowledge(&parsed("INDEX KNOWLEDGE\nPATH=\"p\"\nMODE=\"global\""))),
        "ok"
    );
    assert_eq!(
        check_message(validate_index_knowledge(&parsed("INDEX KNOWLEDGE\nPATH=\"p\"\nMODE=\"LOCAL\""))),
        "Неверный формат: MODE должен быть одним из: [\"local\", \"global\", \"hybrid\", \"naive\"]"
    );
    assert_eq!(
        check_message(validate_index_knowledge(&parsed("GIT PUSH\nPATH=\"p\""))),
        "Неверный формат: Не INDEX KNOWLEDGE команда"
    );
    assert_eq!(
        check_message(validate_index_knowledge(&parsed("INDEX KNOWLEDGE"))),
        "Отсутствует обязательный аргумент: PATH"
    );
}

#[test]
fn train_validation_checks_arguments() {
    let base = "TRAIN AGENT\nPROFILE=\"default\"\nDATA_PATH=\"d\"";
    assert_eq!(check_message(validate_train_agent(&parsed(base))), "ok");
    assert_eq!(
        check_message(validate_train_agent(&parsed("TRAIN AGENT\nDATA_PATH=\"d\""))),
        "Отсутствует обязательный аргумент: PROFILE"
    );
    assert_eq!(
        check_message(validate_train_agent(&parsed("TRAIN AGENT\nPROFILE=\"x\""))),
        "Отсутствует обязательный аргумент: DATA_PATH"
    );
    for good in ["3", "+3", "0", "4294967295", "007"] {
        let text = format!("{}\nEPOCHS=\"{}\"", base, good);
        assert_eq!(check_message(validate_train_agent(&parsed(&text))), "ok", "{}", good);
    }
    for bad in ["-1", "4294967296", "", "+", "3a", "1.5", "99999999999999999999"] {
        let text = format!("{}\nEPOCHS=\"{}\"", base, bad);
        assert_eq!(
            check_message(validate_train_agent(&parsed(&text))),
            "Неверный формат: EPOCHS должен быть целым числом",
            "{}",
            bad
        );
    }
    assert_eq!(
        check_message(validate_train_agent(&parsed("GIT PUSH"))),
        "Неверный формат: Не TRAIN AGENT команда"
    );
}

#[test]
fn git_validation_requires_repo_path() {
    assert_eq!(check_message(validate_git_push(&parsed("GIT PUSH\nREPO_PATH=\"r\""))), "ok");
    assert_eq!(
        check_message(validate_git_push(&parsed("GIT PUSH\nBRANCH=\"b\""))),
        "Отсутствует обязательный аргумент: REPO_PATH"
    );
    assert_eq!(
        check_message(validate_git_push(&parsed("TRAIN AGENT"))),
        "Неверный формат: Не GIT PUSH команда"
    );
}
