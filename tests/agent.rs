use flowguard::agent::{
    git_dry_run_report, git_not_run, git_status_failed, repo_path_refusal, route_agent_command,
    AgentAction,
};
use flowguard::jobs::{check_training_job, training_job_started};

fn route_error(text: &str) -> (String, String) {
    match route_agent_command(text) {
        Err(e) => (e.error_type, e.message),
        Ok(_) => panic!("expected an error"),
    }
}

#[test]
fn agent_commands_route_with_defaults() {
    match route_agent_command("INDEX KNOWLEDGE\nPATH=\"D:\\docs\"") {
        Ok(AgentAction::Index { path, mode, profile }) => {
            assert_eq!(path, Some("D:\\docs".to_string()));
            assert!(mode.is_none() && profile.is_none());
        }
        _ => panic!("expected an indexation"),
    }
    match route_agent_command("TRAIN AGENT\nPROFILE=\"default\"\nDATA_PATH=\"/d\"") {
        Ok(AgentAction::Train { profile, data_path, epochs, mode }) => {
            assert_eq!(profile, "default");
            assert_eq!(data_path, "/d");
            assert_eq!(epochs, 3);
            assert_eq!(mode, "llama_factory");
        }
        _ => panic!("expected a training"),
    }
    match route_agent_command("train agent\nPROFILE=\"x\"\nDATA_PATH=\"/d\"\nEPOCHS=\"+4\"\nMODE=\"quick\"") {
        Ok(AgentAction::Train { epochs, mode, .. }) => {
            assert_eq!(epochs, 4);
            assert_eq!(mode, "quick");
        }
        _ => panic!("expected a training"),
    }
    match route_agent_command("GIT PUSH\nREPO_PATH=\"E:/w\"") {
        Ok(AgentAction::GitDryRun { repo_path, branch, summary }) => {
            assert_eq!(repo_path, "E:/w");
            assert_eq!(branch, "main");
            assert_eq!(summary, "Auto-commit");
        }
        _ => panic!("expected a dry run"),
    }
}

#[test]
fn agent_command_errors() {
    assert_eq!(
        route_error(""),
        ("parse_error".to_string(), "Ошибка парсинга команды: Команда не может быть пустой".to_string())
    );
    assert_eq!(
        route_error("INDEX KNOWLEDGE\nMODE=\"local\""),
        (
            "validation_error".to_string(),
            "Ошибка валидации INDEX KNOWLEDGE: Отсутствует обязательный аргумент: PATH".to_string()
        )
    );
    assert_eq!(
        route_error("TRAIN AGENT\nPROFILE=\"p\"\nDATA_PATH=\"d\"\nEPOCHS=\"many\""),
        (
            "validation_error".to_string(),
            "Ошибка валидации TRAIN AGENT: Неверный формат: EPOCHS должен быть целым числом".to_string()
        )
    );
    assert_eq!(
        route_error("GIT PUSH\nBRANCH=\"dev\""),
        (
            "validation_error".to_string(),
            "Ошибка валидации GIT PUSH: Отсутствует обязательный аргумент: REPO_PATH".to_string()
        )
    );
}

#[test]
fn dry_run_reports() {
    let none = git_dry_run_report("E:/w", "main", "s", "\n  \n");
    assert!(none.success);
    assert_eq!(none.command_type, "GIT_PUSH");
    assert_eq!(
        none.message,
        "✅ Git dry-run выполнен.\n\n📁 Репозиторий: E:/w\n🌿 Ветка: main\n\nℹ️ **Нет изменённых файлов.**\n\n⚠️ Реальный push не производится (безопасный режим)."
    );
    let two = git_dry_run_report("E:/w", "dev", "msg", " M a.rs\n?? b.rs\n");
    assert_eq!(
        two.message,
        "✅ Git dry-run выполнен.\n\n📁 Изменённые файлы (2):\n   M a.rs\n  ?? b.rs\n\n📋 Параметры:\n• РЕПОЗИТОРИЙ: E:/w\n• ВЕТКА: dev\n• СООБЩЕНИЕ: msg\n\n⚠️ Реальный push не производится (безопасный режим).\n\n💡 Для реального коммита используйте `git` в терминале."
    );
    let many: String = (0..23).map(|i| format!("?? f{}\n", i)).collect();
    let report = git_dry_run_report("r", "b", "s", &many);
    assert!(report.message.starts_with("✅ Git dry-run выполнен.\n\n📁 Изменённые файлы (23):\n  ?? f0\n"));
    assert!(report.message.contains("  ?? f19\n\n... и ещё 3 файлов\n\n📋 Параметры:"));
    assert!(!report.message.contains("f20"));
}

#[test]
fn interface_training_checks() {
    let refuse = |data: bool, profile: &str, epochs: u32, status: &str, script: bool| {
        check_training_job("/d", data, profile, epochs, status, "/s.ps1", script)
            .map(|e| (e.error_type, e.message))
    };
    assert_eq!(refuse(true, "default", 3, "idle", true), None);
    assert_eq!(
        refuse(false, "nope", 9, "running", false),
        Some(("validation_error".to_string(), "❌ DATA_PATH не существует:\n/d".to_string()))
    );
    assert_eq!(refuse(true, "nope", 9, "running", false).unwrap().1.lines().next(), Some("❌ Недопустимый PROFILE: nope"));
    assert_eq!(
        refuse(true, "default", 9, "running", false),
        Some(("validation_error".to_string(), "❌ EPOCHS должен быть в диапазоне 1-5".to_string()))
    );
    assert_eq!(
        refuse(true, "default", 1, "queued", false),
        Some(("already_running".to_string(), "⚠️ Обучение уже выполняется!\n\nТекущий профиль: (profile removed in PULSE v1)\nСтатус: queued".to_string()))
    );
    assert_eq!(
        refuse(true, "default", 1, "done", false),
        Some(("script_not_found".to_string(), "❌ Скрипт обучения не найден:\n/s.ps1".to_string()))
    );
    let started = training_job_started("default", "/d", 2, "quick", "train-1");
    assert!(started.success);
    assert_eq!(started.command_type, "TRAIN_AGENT");
    assert!(started.message.starts_with("✅ Обучение профиля **default** запущено!\n\n📋 Параметры:\n• DATA_PATH: /d\n• EPOCHS: 2\n• MODE: quick\n\n🆔 Job ID: train-1\n\n⚠️"));
}

#[test]
fn dry_run_errors() {
    let e = repo_path_refusal("E:\\W", "C:/x");
    assert_eq!(e.error_type, "security_error");
    assert_eq!(
        e.message,
        "❌ REPO_PATH должен находиться внутри проекта (безопасность)\n\nРазрешённый корень: E:\\W\nПолучено: C:/x"
    );
    assert_eq!(git_status_failed("bad").message, "❌ Не удалось выполнить git status:\nbad");
    assert_eq!(git_not_run("no git").message, "❌ Ошибка выполнения git:\nno git");
}
