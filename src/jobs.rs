//! Launch decisions for the long-running jobs that steps start: training
//! and indexing. The caller looks at the file system and spawns the job;
//! the checks, their order and the messages are decided here.

use vstd::prelude::*;
use vstd::string::*;
use crate::api::{ApiError, ExecutionResult, IndexationStartInfo, IndexationStatus};
use crate::run_log::{clone_opt, opt_view};
use crate::text::{concat2, concat3, decimal, push_decimal, same_text};

verus! {

/// Training job request.
pub struct TrainingConfig {
    /// Training profile; must be one of the known training profiles.
    pub profile: String,
    /// Dataset directory; the library's raw documents when absent.
    pub dataset: Option<String>,
    /// Number of epochs, 1 to 5; 1 when absent.
    pub epochs: Option<u32>,
    /// Training mode; `standard` when absent.
    pub mode: Option<String>,
    /// Reserved; ignored.
    pub dry_run: bool,
}

impl TrainingConfig {
    /// The default request: profile `default`, one epoch, `standard` mode.
    pub fn standard() -> (r: TrainingConfig)
        ensures
            r.profile@ == "default"@,
            r.dataset is None,
            r.epochs == Some(1u32),
            r.mode matches Some(m) && m@ == "standard"@,
            !r.dry_run,
    {
        TrainingConfig {
            profile: String::from_str("default"),
            dataset: None,
            epochs: Some(1),
            mode: Some(String::from_str("standard")),
            dry_run: false,
        }
    }
}

impl Default for TrainingConfig {
    fn default() -> (r: TrainingConfig)
        ensures
            r.profile@ == "default"@,
            r.dataset is None,
            r.epochs == Some(1u32),
            r.mode matches Some(m) && m@ == "standard"@,
            !r.dry_run,
    {
        TrainingConfig::standard()
    }
}

/// Outcome of a training launch attempt.
pub struct TrainingResult {
    pub success: bool,
    pub message: String,
    pub job_id: Option<String>,
}

/// A training profile that can be chosen.
pub struct TrainingProfile {
    pub id: String,
    pub name: String,
    pub description: String,
    pub base_model: String,
    pub recommended_epochs: u32,
}

/// A directory that can serve as a training dataset.
pub struct DatasetRoot {
    pub path: String,
    pub name: String,
    /// Number of entries, when it could be counted.
    pub file_count: Option<usize>,
}

fn profile(id: &str, name: &str, description: &str, base_model: &str, epochs: u32) -> (r:
    TrainingProfile)
    ensures
        r.id@ == id@,
        r.name@ == name@,
        r.description@ == description@,
        r.base_model@ == base_model@,
        r.recommended_epochs == epochs,
{
    TrainingProfile {
        id: String::from_str(id),
        name: String::from_str(name),
        description: String::from_str(description),
        base_model: String::from_str(base_model),
        recommended_epochs: epochs,
    }
}

/// The profiles offered for training, `default` first.
pub fn list_training_profiles() -> (r: Vec<TrainingProfile>)
    ensures
        r@.len() == 4,
        r@[0].id@ == "default"@,
        r@[1].id@ == "triz_engineer"@,
        r@[2].id@ == "triz_researcher"@,
        r@[3].id@ == "lightweight"@,
        r@[0].recommended_epochs == 3,
        r@[1].recommended_epochs == 5,
        r@[2].recommended_epochs == 5,
        r@[3].recommended_epochs == 2,
{
    let mut r: Vec<TrainingProfile> = Vec::new();
    r.push(
        profile(
            "default",
            "Default LoRA",
            "Базовое обучение с LoRA адаптером (rank=8, alpha=16)",
            "qwen2.5:14b-instruct-q4_k_m",
            3,
        ),
    );
    r.push(
        profile(
            "triz_engineer",
            "TRIZ Engineer",
            "Специализация на ТРИЗ инженерных задачах (rank=16, alpha=32)",
            "qwen2.5:14b-instruct-q4_k_m",
            5,
        ),
    );
    r.push(
        profile(
            "triz_researcher",
            "TRIZ Researcher",
            "Специализация на ТРИЗ исследованиях (rank=16, alpha=32)",
            "qwen2.5:14b-instruct-q4_k_m",
            5,
        ),
    );
    r.push(
        profile(
            "lightweight",
            "Lightweight (Fast)",
            "Быстрое обучение с минимальными параметрами (rank=4)",
            "qwen2.5:7b-instruct-q4_k_m",
            2,
        ),
    );
    r
}

/// The profiles that a training job may be launched with.
pub open spec fn launchable_profile(p: Seq<char>) -> bool {
    ||| p == "triz_engineer"@
    ||| p == "triz_researcher"@
    ||| p == "triz_td010v3_full"@
    ||| p == "triz_td010v3_smoketest"@
    ||| p == "default"@
}

/// What follows the profile in the message that refuses it: the list of
/// launchable profiles.
pub open spec fn invalid_profile_tail() -> Seq<char> {
    ". Valid: [\"triz_engineer\", \"triz_researcher\", \"triz_td010v3_full\", \"triz_td010v3_smoketest\", \"default\"]"@
}

/// Whether `p` names a profile that a training job may be launched with.
pub fn is_launchable_profile(p: &str) -> (r: bool)
    ensures
        r == launchable_profile(p@),
{
    same_text(p, "triz_engineer") || same_text(p, "triz_researcher") || same_text(
        p,
        "triz_td010v3_full",
    ) || same_text(p, "triz_td010v3_smoketest") || same_text(p, "default")
}

/// A status of the training worker under which no second job may start.
pub open spec fn training_busy(status: Seq<char>) -> bool {
    status == "running"@ || status == "queued"@
}

fn refused(message: String) -> (r: TrainingResult)
    ensures
        !r.success,
        r.message == message,
        r.job_id is None,
{
    TrainingResult { success: false, message, job_id: None }
}

/// What a training launch may go ahead with: the epoch count and the mode.
pub struct TrainingLaunch {
    pub epochs: u32,
    pub mode: String,
}

/// Decides a training launch from the request and from what the caller
/// observed: the dataset path it resolved and whether it exists, the
/// worker's current status, and the launch script's path and whether it
/// exists. The checks run in order: epoch range, profile, dataset, busy
/// worker, script. The first that fails gives the refusal.
pub fn decide_training_launch(
    config: &TrainingConfig,
    dataset_path: &str,
    dataset_exists: bool,
    worker_status: &str,
    script_path: &str,
    script_exists: bool,
) -> (r: Result<TrainingLaunch, TrainingResult>)
    ensures
        ({
            let epochs: u32 = match config.epochs {
                Some(e) => e,
                None => 1,
            };
            match r {
                Ok(launch) => {
                    &&& 1 <= epochs <= 5
                    &&& launchable_profile(config.profile@)
                    &&& dataset_exists
                    &&& !training_busy(worker_status@)
                    &&& script_exists
                    &&& launch.epochs == epochs
                    &&& launch.mode@ == match config.mode {
                        Some(m) => m@,
                        None => "standard"@,
                    }
                },
                Err(res) => {
                    &&& !res.success
                    &&& res.job_id is None
                    &&& res.message@ == if !(1 <= epochs <= 5) {
                        "EPOCHS must be in range 1-5"@
                    } else if !launchable_profile(config.profile@) {
                        "Invalid profile: "@ + config.profile@ + invalid_profile_tail()
                    } else if !dataset_exists {
                        "Dataset path not found: "@ + dataset_path@
                    } else if training_busy(worker_status@) {
                        "Training already in progress (status: "@ + worker_status@ + ")"@
                    } else {
                        "Training script not found: "@ + script_path@
                    }
                    &&& !(1 <= epochs <= 5 && launchable_profile(config.profile@) && dataset_exists
                        && !training_busy(worker_status@) && script_exists)
                },
            }
        }),
{
    let epochs: u32 = match config.epochs {
        Some(e) => e,
        None => 1,
    };
    if epochs < 1 || epochs > 5 {
        return Err(refused(String::from_str("EPOCHS must be in range 1-5")));
    }
    if !is_launchable_profile(config.profile.as_str()) {
        let m = concat3(
            "Invalid profile: ",
            config.profile.as_str(),
            ". Valid: [\"triz_engineer\", \"triz_researcher\", \"triz_td010v3_full\", \"triz_td010v3_smoketest\", \"default\"]",
        );
        return Err(refused(m));
    }
    if !dataset_exists {
        return Err(refused(concat2("Dataset path not found: ", dataset_path)));
    }
    if same_text(worker_status, "running") || same_text(worker_status, "queued") {
        return Err(
            refused(concat3("Training already in progress (status: ", worker_status, ")")),
        );
    }
    if !script_exists {
        return Err(refused(concat2("Training script not found: ", script_path)));
    }
    let mode = match &config.mode {
        Some(m) => m.clone(),
        None => String::from_str("standard"),
    };
    Ok(TrainingLaunch { epochs, mode })
}

/// The outcome of spawning the training job `job_id`: started, or the
/// spawn error.
pub fn training_spawned(profile: &str, epochs: u32, job_id: &str, spawn: Result<(), String>) -> (r:
    TrainingResult)
    ensures
        r.success == spawn is Ok,
        match spawn {
            Ok(_) => r.message@ == "Training started: profile="@ + profile@ + ", epochs="@ + decimal(
                epochs as nat,
            ) + ", job_id="@ + job_id@ && (r.job_id matches Some(j) && j@ == job_id@),
            Err(e) => r.message@ == "Failed to start training: "@ + e@ && r.job_id is None,
        },
{
    match spawn {
        Ok(_) => {
            let mut m = concat3("Training started: profile=", profile, ", epochs=");
            push_decimal(&mut m, epochs as u64);
            m.append(", job_id=");
            m.append(job_id);
            TrainingResult { success: true, message: m, job_id: Some(String::from_str(job_id)) }
        },
        Err(e) => refused(concat2("Failed to start training: ", e.as_str())),
    }
}

/// Indexing job request.
pub struct IndexConfig {
    pub profile: Option<String>,
    /// Dataset directory; the library's raw documents when absent.
    pub data_root: Option<String>,
    pub mode: Option<String>,
}

/// Outcome of an indexing launch attempt.
pub struct IndexResult {
    pub success: bool,
    pub message: String,
    pub job_id: Option<String>,
}

/// Decides an indexing launch from what the caller observed: the script
/// must exist, then the dataset directory. The first that is missing gives
/// the refusal.
pub fn decide_index_launch(
    script_path: &str,
    script_exists: bool,
    dataset_path: &str,
    dataset_exists: bool,
) -> (r: Option<IndexResult>)
    ensures
        r is None <==> script_exists && dataset_exists,
        r matches Some(res) ==> !res.success && res.job_id is None && res.message@ == if !script_exists {
            "Indexing script not found: "@ + script_path@
        } else {
            "Dataset path not found: "@ + dataset_path@
        },
{
    if !script_exists {
        return Some(
            IndexResult {
                success: false,
                message: concat2("Indexing script not found: ", script_path),
                job_id: None,
            },
        );
    }
    if !dataset_exists {
        return Some(
            IndexResult {
                success: false,
                message: concat2("Dataset path not found: ", dataset_path),
                job_id: None,
            },
        );
    }
    None
}

/// The outcome of spawning the indexing job `job_id` over `dataset_path`.
pub fn indexing_spawned(dataset_path: &str, job_id: &str, spawn: Result<(), String>) -> (r:
    IndexResult)
    ensures
        r.success == spawn is Ok,
        match spawn {
            Ok(_) => r.message@ == "Indexing started: dataset="@ + dataset_path@ + ", job_id="@
                + job_id@ && (r.job_id matches Some(j) && j@ == job_id@),
            Err(e) => r.message@ == "Failed to start indexing: "@ + e@ && r.job_id is None,
        },
{
    match spawn {
        Ok(_) => {
            let mut m = concat3("Indexing started: dataset=", dataset_path, ", job_id=");
            m.append(job_id);
            IndexResult { success: true, message: m, job_id: Some(String::from_str(job_id)) }
        },
        Err(e) => IndexResult {
            success: false,
            message: concat2("Failed to start indexing: ", e.as_str()),
            job_id: None,
        },
    }
}

/// Why a training job requested from the interface is refused, if it is:
/// the checks run in order: dataset path, profile, epoch range, busy
/// worker, launch script.
pub open spec fn training_job_refusal(
    data_path: Seq<char>,
    data_exists: bool,
    profile: Seq<char>,
    epochs: u32,
    worker_status: Seq<char>,
    script_path: Seq<char>,
    script_exists: bool,
) -> Option<(Seq<char>, Seq<char>)> {
    if !data_exists {
        Some(("validation_error"@, "❌ DATA_PATH не существует:\n"@ + data_path))
    } else if !launchable_profile(profile) {
        Some(("validation_error"@, "❌ Недопустимый PROFILE: "@ + profile + allowed_profiles_tail()))
    } else if !(1 <= epochs <= 5) {
        Some(("validation_error"@, "❌ EPOCHS должен быть в диапазоне 1-5"@))
    } else if training_busy(worker_status) {
        Some(("already_running"@, "⚠️ Обучение уже выполняется!\n\nТекущий профиль: (profile removed in PULSE v1)\nСтатус: "@ + worker_status))
    } else if !script_exists {
        Some(("script_not_found"@, "❌ Скрипт обучения не найден:\n"@ + script_path))
    } else {
        None
    }
}

/// What follows the profile in the interface's refusal of it.
pub open spec fn allowed_profiles_tail() -> Seq<char> {
    "\nДопустимые значения: [\"triz_engineer\", \"triz_researcher\", \"triz_td010v3_full\", \"triz_td010v3_smoketest\", \"default\"]"@
}

fn api_error(error_type: &str, message: String) -> (r: ApiError)
    ensures
        r.error_type@ == error_type@,
        r.message == message,
{
    ApiError { error_type: String::from_str(error_type), message }
}

/// Checks a training job requested from the interface against what the
/// caller observed; `None` lets it launch.
pub fn check_training_job(
    data_path: &str,
    data_exists: bool,
    profile: &str,
    epochs: u32,
    worker_status: &str,
    script_path: &str,
    script_exists: bool,
) -> (r: Option<ApiError>)
    ensures
        match training_job_refusal(
            data_path@,
            data_exists,
            profile@,
            epochs,
            worker_status@,
            script_path@,
            script_exists,
        ) {
            None => r is None,
            Some((kind, message)) => r matches Some(e) && e.error_type@ == kind && e.message@
                == message,
        },
{
    if !data_exists {
        return Some(api_error("validation_error", concat2("❌ DATA_PATH не существует:\n", data_path)));
    }
    if !is_launchable_profile(profile) {
        let m = concat3(
            "❌ Недопустимый PROFILE: ",
            profile,
            "\nДопустимые значения: [\"triz_engineer\", \"triz_researcher\", \"triz_td010v3_full\", \"triz_td010v3_smoketest\", \"default\"]",
        );
        return Some(api_error("validation_error", m));
    }
    if epochs < 1 || epochs > 5 {
        return Some(api_error("validation_error", String::from_str("❌ EPOCHS должен быть в диапазоне 1-5")));
    }
    if same_text(worker_status, "running") || same_text(worker_status, "queued") {
        let m = concat2(
            "⚠️ Обучение уже выполняется!\n\nТекущий профиль: (profile removed in PULSE v1)\nСтатус: ",
            worker_status,
        );
        return Some(api_error("already_running", m));
    }
    if !script_exists {
        return Some(api_error("script_not_found", concat2("❌ Скрипт обучения не найден:\n", script_path)));
    }
    None
}

/// The interface's report of a training job `job_id` that was launched.
pub fn training_job_started(profile: &str, data_path: &str, epochs: u32, mode: &str, job_id: &str) -> (r:
    ExecutionResult)
    ensures
        r.success,
        r.command_type@ == "TRAIN_AGENT"@,
        r.message@ == "✅ Обучение профиля **"@ + profile@
            + "** запущено!\n\n📋 Параметры:\n• DATA_PATH: "@ + data_path@ + "\n• EPOCHS: "@
            + decimal(epochs as nat) + "\n• MODE: "@ + mode@ + "\n\n🆔 Job ID: "@ + job_id@
            + "\n\n⚠️ Обучение выполняется в фоне. Статус отслеживается в `training_status.json`.\n\n💡 Для мониторинга используйте команду `STATUS: TRAINING` или вкладку 🧠 Training."@,
{
    let mut m = concat3(
        "✅ Обучение профиля **",
        profile,
        "** запущено!\n\n📋 Параметры:\n• DATA_PATH: ",
    );
    m.append(data_path);
    m.append("\n• EPOCHS: ");
    push_decimal(&mut m, epochs as u64);
    m.append("\n• MODE: ");
    m.append(mode);
    m.append("\n\n🆔 Job ID: ");
    m.append(job_id);
    m.append(
        "\n\n⚠️ Обучение выполняется в фоне. Статус отслеживается в `training_status.json`.\n\n💡 Для мониторинга используйте команду `STATUS: TRAINING` или вкладку 🧠 Training.",
    );
    ExecutionResult { success: true, message: m, command_type: String::from_str("TRAIN_AGENT") }
}

/// The interface's error for a training job whose process could not start.
pub fn training_job_spawn_failed(error: &str) -> (r: ApiError)
    ensures
        r.error_type@ == "start_failed"@,
        r.message@ == "❌ Не удалось запустить обучение:\n"@ + error@,
{
    api_error("start_failed", concat2("❌ Не удалось запустить обучение:\n", error))
}

/// Whether an indexation started from the interface may launch.
pub enum IndexationStart {
    /// Refused with this error; the state to store, if it changes.
    Refuse { error: ApiError, store: Option<IndexationStatus> },
    /// Launch the indexing script.
    Launch,
}

/// Decides an indexation start from the stored state and whether the
/// script exists. A running indexation refuses; a missing script refuses
/// and records the error in the stored state, keeping the last run.
pub fn decide_indexation_start(current: &IndexationStatus, script_path: &str, script_exists: bool) -> (r:
    IndexationStart)
    ensures
        current.state@ == "running"@ ==> (r matches IndexationStart::Refuse { error, store }
            && error.error_type@ == "already_running"@ && error.message@
            == "Индексация уже выполняется"@ && store is None),
        current.state@ != "running"@ && !script_exists ==> (r matches IndexationStart::Refuse {
            error,
            store,
        } && error.error_type@ == "script_not_found"@ && error.message@
            == "Скрипт индексации не найден: "@ + script_path@ && (store matches Some(st)
            && st.state@ == "error"@ && opt_view(st.last_run) == opt_view(current.last_run)
            && opt_view(st.last_error) == Some(error.message@))),
        current.state@ != "running"@ && script_exists ==> r is Launch,
{
    if current.is_running() {
        return IndexationStart::Refuse {
            error: api_error("already_running", String::from_str("Индексация уже выполняется")),
            store: None,
        };
    }
    if !script_exists {
        let m = concat2("Скрипт индексации не найден: ", script_path);
        let store = IndexationStatus {
            state: String::from_str("error"),
            last_run: clone_opt(&current.last_run),
            last_error: Some(m.clone()),
        };
        return IndexationStart::Refuse { error: api_error("script_not_found", m), store: Some(store) };
    }
    IndexationStart::Launch
}

/// The state to store and the answer after trying to start the indexing
/// script: it started at `Ok(started_at)`, or failed with `Err(error)`.
pub fn indexation_spawned(current: &IndexationStatus, spawn: Result<String, String>) -> (r: (
    IndexationStatus,
    Result<IndexationStartInfo, ApiError>,
))
    ensures
        match spawn {
            Ok(at) => {
                &&& r.0.state@ == "running"@
                &&& opt_view(r.0.last_run) == Some(at@)
                &&& r.0.last_error is None
                &&& r.1 matches Ok(info) && info.started_at@ == at@ && info.status@ == "started"@
            },
            Err(e) => {
                &&& r.0.state@ == "error"@
                &&& opt_view(r.0.last_run) == opt_view(current.last_run)
                &&& opt_view(r.0.last_error) == Some("Не удалось запустить скрипт: "@ + e@)
                &&& r.1 matches Err(err) && err.error_type@ == "start_failed"@ && err.message@
                    == "Не удалось запустить индексацию: "@ + e@
            },
        },
{
    match spawn {
        Ok(at) => {
            let store = IndexationStatus {
                state: String::from_str("running"),
                last_run: Some(at.clone()),
                last_error: None,
            };
            (store, Ok(IndexationStartInfo { started_at: at, status: String::from_str("started") }))
        },
        Err(e) => {
            let store = IndexationStatus {
                state: String::from_str("error"),
                last_run: clone_opt(&current.last_run),
                last_error: Some(concat2("Не удалось запустить скрипт: ", e.as_str())),
            };
            (store, Err(api_error("start_failed", concat2("Не удалось запустить индексацию: ", e.as_str()))))
        },
    }
}

fn text_or(o: &Option<String>, fallback: &str) -> (r: String)
    ensures
        r@ == match o {
            Some(s) => s@,
            None => fallback@,
        },
{
    match o {
        Some(s) => s.clone(),
        None => String::from_str(fallback),
    }
}

/// The agent's report of an indexation that started at `started_at`; an
/// absent path or profile shows as `default`, an absent mode as `local`.
pub fn indexation_report(
    path: &Option<String>,
    mode: &Option<String>,
    profile: &Option<String>,
    started_at: &str,
) -> (r: ExecutionResult)
    ensures
        r.success,
        r.command_type@ == "INDEX_KNOWLEDGE"@,
        r.message@ == "✅ Индексация запущена!\n\nПараметры:\nPATH: "@ + (match path {
            Some(p) => p@,
            None => "default"@,
        }) + "\nMODE: "@ + (match mode {
            Some(m) => m@,
            None => "local"@,
        }) + "\nPROFILE: "@ + (match profile {
            Some(p) => p@,
            None => "default"@,
        }) + "\n\nВремя старта: "@ + started_at@
            + "\n\nСтатус можно отслеживать на вкладке 📚 Library."@,
{
    let mut m = String::from_str("✅ Индексация запущена!\n\nПараметры:\nPATH: ");
    m.append(text_or(path, "default").as_str());
    m.append("\nMODE: ");
    m.append(text_or(mode, "local").as_str());
    m.append("\nPROFILE: ");
    m.append(text_or(profile, "default").as_str());
    m.append("\n\nВремя старта: ");
    m.append(started_at);
    m.append("\n\nСтатус можно отслеживать на вкладке 📚 Library.");
    ExecutionResult { success: true, message: m, command_type: String::from_str("INDEX_KNOWLEDGE") }
}

/// The agent's error for an indexation that did not start.
pub fn indexation_failed(error: &ApiError) -> (r: ApiError)
    ensures
        r.error_type@ == "indexation_failed"@,
        r.message@ == "Ошибка запуска индексации: "@ + error.error_type@ + " - "@ + error.message@,
{
    let mut m = concat3("Ошибка запуска индексации: ", error.error_type.as_str(), " - ");
    m.append(error.message.as_str());
    api_error("indexation_failed", m)
}

} // verus!
