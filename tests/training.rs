use flowguard::api::{ApiError, IndexationStatus};
use flowguard::jobs::{
    decide_index_launch, decide_indexation_start, decide_training_launch, indexation_failed,
    indexation_report, indexation_spawned, indexing_spawned, list_training_profiles,
    training_job_spawn_failed, training_spawned, IndexationStart, TrainingConfig,
};
use flowguard::pulse::TrainingStatus;

#[test]
fn test_list_training_profiles() {
    let profiles = list_training_profiles();
    assert!(!profiles.is_empty());
    assert!(profiles.iter().any(|p| p.id == "default"));
}

#[test]
fn test_default_training_status() {
    let status = TrainingStatus::idle(1_700_000_000);
    assert_eq!(status.status, "idle");
    assert_eq!(status.message, "No training in progress");
    assert_eq!(status.timestamp, 1_700_000_000);
}

fn config(profile: &str, epochs: Option<u32>, mode: Option<&str>) -> TrainingConfig {
    TrainingConfig {
        profile: profile.to_string(),
        dataset: None,
        epochs,
        mode: mode.map(|m| m.to_string()),
        dry_run: false,
    }
}

fn refusal(c: &TrainingConfig, dataset: bool, worker: &str, script: bool) -> String {
    match decide_training_launch(c, "/data", dataset, worker, "/s.ps1", script) {
        Ok(_) => "launch".to_string(),
        Err(r) => {
            assert!(!r.success);
            assert!(r.job_id.is_none());
            r.message
        }
    }
}

#[test]
fn training_launch_checks_run_in_order() {
    let good = config("default", None, None);
    match decide_training_launch(&good, "/data", true, "idle", "/s.ps1", true) {
        Ok(l) => {
            assert_eq!(l.epochs, 1);
            assert_eq!(l.mode, "standard");
        }
        Err(_) => panic!("expected a launch"),
    }
    match decide_training_launch(&config("triz_engineer", Some(5), Some("quick")), "/d", true, "done", "/s", true) {
        Ok(l) => {
            assert_eq!(l.epochs, 5);
            assert_eq!(l.mode, "quick");
        }
        Err(_) => panic!("expected a launch"),
    }
    assert_eq!(refusal(&config("nobody", Some(0), None), false, "running", false), "EPOCHS must be in range 1-5");
    assert_eq!(refusal(&config("default", Some(6), None), true, "idle", true), "EPOCHS must be in range 1-5");
    assert_eq!(
        refusal(&config("lightweight", Some(2), None), false, "running", false),
        "Invalid profile: lightweight. Valid: [\"triz_engineer\", \"triz_researcher\", \"triz_td010v3_full\", \"triz_td010v3_smoketest\", \"default\"]"
    );
    assert_eq!(refusal(&good, false, "running", false), "Dataset path not found: /data");
    assert_eq!(refusal(&good, true, "running", false), "Training already in progress (status: running)");
    assert_eq!(refusal(&good, true, "queued", true), "Training already in progress (status: queued)");
    assert_eq!(refusal(&good, true, "error", false), "Training script not found: /s.ps1");
}

#[test]
fn training_spawn_outcomes() {
    let ok = training_spawned("default", 3, "train-20240101-000000", Ok(()));
    assert!(ok.success);
    assert_eq!(ok.message, "Training started: profile=default, epochs=3, job_id=train-20240101-000000");
    assert_eq!(ok.job_id, Some("train-20240101-000000".to_string()));
    let bad = training_spawned("default", 3, "j", Err("no powershell".to_string()));
    assert!(!bad.success);
    assert_eq!(bad.message, "Failed to start training: no powershell");
    assert!(bad.job_id.is_none());
}

#[test]
fn indexing_launch_checks() {
    assert!(decide_index_launch("/s", true, "/d", true).is_none());
    assert_eq!(decide_index_launch("/s", false, "/d", false).unwrap().message, "Indexing script not found: /s");
    assert_eq!(decide_index_launch("/s", true, "/d", false).unwrap().message, "Dataset path not found: /d");
    let ok = indexing_spawned("/d", "index-1", Ok(()));
    assert!(ok.success);
    assert_eq!(ok.message, "Indexing started: dataset=/d, job_id=index-1");
    let bad = indexing_spawned("/d", "index-1", Err("denied".to_string()));
    assert_eq!(bad.message, "Failed to start indexing: denied");
    assert!(!bad.success);
}

#[test]
fn indexation_start_decisions() {
    let running = IndexationStatus { state: "running".to_string(), last_run: None, last_error: None };
    match decide_indexation_start(&running, "s.ps1", true) {
        IndexationStart::Refuse { error, store } => {
            assert_eq!(error.error_type, "already_running");
            assert_eq!(error.message, "Индексация уже выполняется");
            assert!(store.is_none());
        }
        IndexationStart::Launch => panic!("expected a refusal"),
    }
    let idle = IndexationStatus { state: "idle".to_string(), last_run: Some("t0".to_string()), last_error: None };
    match decide_indexation_start(&idle, "s.ps1", false) {
        IndexationStart::Refuse { error, store } => {
            assert_eq!(error.error_type, "script_not_found");
            assert_eq!(error.message, "Скрипт индексации не найден: s.ps1");
            let st = store.unwrap();
            assert_eq!(st.state, "error");
            assert_eq!(st.last_run, Some("t0".to_string()));
            assert_eq!(st.last_error, Some("Скрипт индексации не найден: s.ps1".to_string()));
        }
        IndexationStart::Launch => panic!("expected a refusal"),
    }
    assert!(matches!(decide_indexation_start(&idle, "s.ps1", true), IndexationStart::Launch));
    let (st, answer) = indexation_spawned(&idle, Ok("t1".to_string()));
    assert_eq!(st.state, "running");
    assert_eq!(st.last_run, Some("t1".to_string()));
    let info = answer.ok().unwrap();
    assert_eq!(info.started_at, "t1");
    assert_eq!(info.status, "started");
    let (st, answer) = indexation_spawned(&idle, Err("denied".to_string()));
    assert_eq!(st.last_error, Some("Не удалось запустить скрипт: denied".to_string()));
    assert_eq!(st.last_run, Some("t0".to_string()));
    match answer {
        Err(e) => assert_eq!(e.message, "Не удалось запустить индексацию: denied"),
        Ok(_) => panic!("expected an error"),
    }
    let report = indexation_report(&None, &Some("global".to_string()), &None, "t1");
    assert_eq!(report.command_type, "INDEX_KNOWLEDGE");
    assert_eq!(
        report.message,
        "✅ Индексация запущена!\n\nПараметры:\nPATH: default\nMODE: global\nPROFILE: default\n\nВремя старта: t1\n\nСтатус можно отслеживать на вкладке 📚 Library."
    );
    let failed = indexation_failed(&ApiError { error_type: "start_failed".to_string(), message: "x".to_string() });
    assert_eq!(failed.error_type, "indexation_failed");
    assert_eq!(failed.message, "Ошибка запуска индексации: start_failed - x");
    assert_eq!(training_job_spawn_failed("e").message, "❌ Не удалось запустить обучение:\ne");
}
