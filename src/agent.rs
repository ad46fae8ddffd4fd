//! Routing of agent commands: what a parsed and validated command asks
//! for, with its defaults, and the report of a git dry run. Launching the
//! jobs and running git stay with the caller.

use vstd::prelude::*;
use vstd::string::*;
use crate::api::{ApiError, ExecutionResult};
use crate::command_parser::{
    failure_message, git_check, index_check, parse_command, parse_outcome, parse_u32,
    digits_value, train_check, unsigned_digits, validate_git_push,
    validate_index_knowledge, validate_train_agent, CommandArgs, CommandKind, ParseFailure,
};
use crate::run_log::opt_view;
use crate::text::{
    concat2, concat3, decimal, join, join_strings, lines_of, nonempty_lines, push_decimal, trim,
    trim_str, views,
};

verus! {

/// What an agent command asks for.
#[allow(inconsistent_fields)]
pub enum AgentAction {
    /// Start an indexation.
    Index { path: Option<String>, mode: Option<String>, profile: Option<String> },
    /// Start a training job.
    Train { profile: String, data_path: String, epochs: u32, mode: String },
    /// Report what a push of the repository would carry, without pushing.
    GitDryRun { repo_path: String, branch: String, summary: String },
}

/// The value of `key` among parsed arguments.
pub open spec fn arg(args: Map<Seq<char>, Seq<char>>, key: Seq<char>) -> Option<Seq<char>> {
    if args.contains_key(key) {
        Some(args[key])
    } else {
        None
    }
}

/// The value of `key`, or `fallback`.
pub open spec fn arg_or(args: Map<Seq<char>, Seq<char>>, key: Seq<char>, fallback: Seq<char>) -> Seq<
    char,
> {
    if args.contains_key(key) {
        args[key]
    } else {
        fallback
    }
}

/// The error of an agent command that failed validation.
pub open spec fn invalid(label: Seq<char>, f: ParseFailure) -> (Seq<char>, Seq<char>) {
    ("validation_error"@, "Ошибка валидации "@ + label + ": "@ + failure_message(f))
}

/// Model of an [`ApiError`].
pub open spec fn error_view(e: ApiError) -> (Seq<char>, Seq<char>) {
    (e.error_type@, e.message@)
}

fn arg_copy(args: &CommandArgs, key: &str) -> (r: Option<String>)
    ensures
        opt_view(r) == arg(args@, key@),
{
    match args.get(key) {
        Some(v) => Some(v.clone()),
        None => None,
    }
}

fn arg_copy_or(args: &CommandArgs, key: &str, fallback: &str) -> (r: String)
    ensures
        r@ == arg_or(args@, key@, fallback@),
{
    match args.get(key) {
        Some(v) => v.clone(),
        None => String::from_str(fallback),
    }
}

fn validation_error(label: &str, e: &crate::command_parser::ParseError) -> (r: ApiError)
    ensures
        error_view(r) == invalid(label@, e@),
{
    let mut m = concat3("Ошибка валидации ", label, ": ");
    m.append(e.message().as_str());
    ApiError { error_type: String::from_str("validation_error"), message: m }
}

/// Routes an agent command text: parse it, validate it for its kind, and
/// say what it asks for. `TRAIN AGENT` runs 3 epochs in mode
/// `llama_factory` unless told otherwise; `GIT PUSH` targets `main` with
/// summary `Auto-commit` unless told otherwise.
pub fn route_agent_command(text: &str) -> (r: Result<AgentAction, ApiError>)
    ensures
        match parse_outcome(text@) {
            Err(f) => r matches Err(e) && error_view(e) == ("parse_error"@,
            "Ошибка парсинга команды: "@ + failure_message(f)),
            Ok((kind, args)) => match kind {
                CommandKind::IndexKnowledge => match index_check(kind, args) {
                    Err(f) => r matches Err(e) && error_view(e) == invalid("INDEX KNOWLEDGE"@, f),
                    Ok(_) => r matches Ok(AgentAction::Index { path, mode, profile }) && opt_view(path)
                        == arg(args, "PATH"@) && opt_view(mode) == arg(args, "MODE"@) && opt_view(
                        profile,
                    ) == arg(args, "PROFILE"@),
                },
                CommandKind::TrainAgent => match train_check(kind, args) {
                    Err(f) => r matches Err(e) && error_view(e) == invalid("TRAIN AGENT"@, f),
                    Ok(_) => r matches Ok(AgentAction::Train { profile, data_path, epochs, mode })
                        && profile@ == args["PROFILE"@] && data_path@ == args["DATA_PATH"@] && epochs
                        == (if args.contains_key("EPOCHS"@) {
                        digits_value(unsigned_digits(args["EPOCHS"@]))
                    } else {
                        3
                    }) && mode@ == arg_or(args, "MODE"@, "llama_factory"@),
                },
                CommandKind::GitPush => match git_check(kind, args) {
                    Err(f) => r matches Err(e) && error_view(e) == invalid("GIT PUSH"@, f),
                    Ok(_) => r matches Ok(AgentAction::GitDryRun { repo_path, branch, summary })
                        && repo_path@ == args["REPO_PATH"@] && branch@ == arg_or(
                        args,
                        "BRANCH"@,
                        "main"@,
                    ) && summary@ == arg_or(args, "SUMMARY"@, "Auto-commit"@),
                },
            },
        },
{
    let parsed = match parse_command(text) {
        Ok(c) => c,
        Err(e) => {
            let m = concat2("Ошибка парсинга команды: ", e.message().as_str());
            return Err(ApiError { error_type: String::from_str("parse_error"), message: m });
        },
    };
    let args = &parsed.args;
    match parsed.kind {
        CommandKind::IndexKnowledge => {
            if let Err(e) = validate_index_knowledge(&parsed) {
                return Err(validation_error("INDEX KNOWLEDGE", &e));
            }
            Ok(
                AgentAction::Index {
                    path: arg_copy(args, "PATH"),
                    mode: arg_copy(args, "MODE"),
                    profile: arg_copy(args, "PROFILE"),
                },
            )
        },
        CommandKind::TrainAgent => {
            if let Err(e) = validate_train_agent(&parsed) {
                return Err(validation_error("TRAIN AGENT", &e));
            }
            let epochs: u32 = match args.get("EPOCHS") {
                Some(t) => match parse_u32(t.as_str()) {
                    Some(v) => v,
                    None => 3,
                },
                None => 3,
            };
            Ok(
                AgentAction::Train {
                    profile: arg_copy_or(args, "PROFILE", ""),
                    data_path: arg_copy_or(args, "DATA_PATH", ""),
                    epochs,
                    mode: arg_copy_or(args, "MODE", "llama_factory"),
                },
            )
        },
        CommandKind::GitPush => {
            if let Err(e) = validate_git_push(&parsed) {
                return Err(validation_error("GIT PUSH", &e));
            }
            Ok(
                AgentAction::GitDryRun {
                    repo_path: arg_copy_or(args, "REPO_PATH", ""),
                    branch: arg_copy_or(args, "BRANCH", "main"),
                    summary: arg_copy_or(args, "SUMMARY", "Auto-commit"),
                },
            )
        },
    }
}

/// The lines among `lines` that hold more than white space.
pub open spec fn non_blank(lines: Seq<Seq<char>>) -> Seq<Seq<char>>
    decreases lines.len(),
{
    if lines.len() == 0 {
        Seq::empty()
    } else if trim(lines.last()).len() > 0 {
        non_blank(lines.drop_last()).push(lines.last())
    } else {
        non_blank(lines.drop_last())
    }
}

/// Most changed files that a dry-run report lists.
pub const LISTED_FILES: usize = 20;

/// The listing of changed files: the first twenty, indented, one per line.
pub open spec fn file_listing(files: Seq<Seq<char>>) -> Seq<char> {
    let shown = if files.len() > LISTED_FILES {
        files.take(LISTED_FILES as int)
    } else {
        files
    };
    join(shown.map_values(|f: Seq<char>| "  "@ + f), "\n"@)
}

/// What a dry run reports about `files`, the changed entries of the working tree.
pub open spec fn dry_run_message(
    repo_path: Seq<char>,
    branch: Seq<char>,
    summary: Seq<char>,
    files: Seq<Seq<char>>,
) -> Seq<char> {
    if files.len() == 0 {
        "✅ Git dry-run выполнен.\n\n📁 Репозиторий: "@ + repo_path + "\n🌿 Ветка: "@ + branch
            + "\n\nℹ️ **Нет изменённых файлов.**\n\n⚠️ Реальный push не производится (безопасный режим)."@
    } else {
        "✅ Git dry-run выполнен.\n\n📁 Изменённые файлы ("@ + decimal(files.len()) + "):\n"@
            + file_listing(files) + (if files.len() > LISTED_FILES {
            "\n\n... и ещё "@ + decimal((files.len() - LISTED_FILES) as nat) + " файлов"@
        } else {
            Seq::empty()
        }) + "\n\n📋 Параметры:\n• РЕПОЗИТОРИЙ: "@ + repo_path + "\n• ВЕТКА: "@ + branch
            + "\n• СООБЩЕНИЕ: "@ + summary
            + "\n\n⚠️ Реальный push не производится (безопасный режим).\n\n💡 Для реального коммита используйте `git` в терминале."@
    }
}

fn keep_non_blank(lines: Vec<String>) -> (r: Vec<String>)
    ensures
        views(r@) == non_blank(views(lines@)),
{
    let mut kept: Vec<String> = Vec::new();
    let mut i: usize = 0;
    while i < lines.len()
        invariant
            i <= lines.len(),
            views(kept@) == non_blank(views(lines@).take(i as int)),
        decreases lines.len() - i,
    {
        let ghost prefix = views(lines@).take(i as int + 1);
        assert(prefix.drop_last() =~= views(lines@).take(i as int));
        assert(prefix.last() == lines@[i as int]@);
        if trim_str(lines[i].as_str()).unicode_len() > 0 {
            let ghost before = views(kept@);
            kept.push(lines[i].clone());
            assert(views(kept@) =~= before.push(lines@[i as int]@));
        }
        i = i + 1;
    }
    assert(views(lines@).take(lines.len() as int) =~= views(lines@));
    kept
}

fn listing(files: &Vec<String>) -> (r: String)
    ensures
        r@ == file_listing(views(files@)),
{
    let shown = if files.len() > LISTED_FILES {
        LISTED_FILES
    } else {
        files.len()
    };
    let ghost fs = views(files@);
    let ghost kept = if fs.len() > LISTED_FILES {
        fs.take(LISTED_FILES as int)
    } else {
        fs
    };
    let mut indented: Vec<String> = Vec::new();
    let mut i: usize = 0;
    while i < shown
        invariant
            shown <= files.len(),
            shown == kept.len(),
            fs == views(files@),
            kept == (if fs.len() > LISTED_FILES {
                fs.take(LISTED_FILES as int)
            } else {
                fs
            }),
            i <= shown,
            views(indented@) == kept.take(i as int).map_values(|f: Seq<char>| "  "@ + f),
        decreases shown - i,
    {
        let ghost before = views(indented@);
        let line = concat2("  ", files[i].as_str());
        indented.push(line);
        assert(kept[i as int] == fs[i as int]);
        assert(fs[i as int] == files@[i as int]@);
        assert(views(indented@) =~= before.push("  "@ + kept[i as int]));
        assert(views(indented@) =~= kept.take(i as int + 1).map_values(|f: Seq<char>| "  "@ + f));
        i = i + 1;
    }
    assert(kept.take(shown as int) =~= kept);
    join_strings(&indented, "\n")
}

/// The result of a git dry run over the porcelain status output `status`:
/// the changed entries are its lines that hold more than white space.
pub fn git_dry_run_report(repo_path: &str, branch: &str, summary: &str, status: &str) -> (r:
    ExecutionResult)
    ensures
        r.success,
        r.command_type@ == "GIT_PUSH"@,
        r.message@ == dry_run_message(
            repo_path@,
            branch@,
            summary@,
            non_blank(nonempty_lines(status@)),
        ),
{
    let files = keep_non_blank(lines_of(status));
    let n = files.len();
    let mut m: String;
    if n == 0 {
        m = concat3("✅ Git dry-run выполнен.\n\n📁 Репозиторий: ", repo_path, "\n🌿 Ветка: ");
        m.append(branch);
        m.append("\n\nℹ️ **Нет изменённых файлов.**\n\n⚠️ Реальный push не производится (безопасный режим).");
    } else {
        m = String::from_str("✅ Git dry-run выполнен.\n\n📁 Изменённые файлы (");
        push_decimal(&mut m, n as u64);
        m.append("):\n");
        m.append(listing(&files).as_str());
        if n > LISTED_FILES {
            m.append("\n\n... и ещё ");
            push_decimal(&mut m, (n - LISTED_FILES) as u64);
            m.append(" файлов");
        }
        let ghost before_params = m@;
        m.append("\n\n📋 Параметры:\n• РЕПОЗИТОРИЙ: ");
        m.append(repo_path);
        m.append("\n• ВЕТКА: ");
        m.append(branch);
        m.append("\n• СООБЩЕНИЕ: ");
        m.append(summary);
        m.append("\n\n⚠️ Реальный push не производится (безопасный режим).\n\n💡 Для реального коммита используйте `git` в терминале.");
        proof {
            if n <= LISTED_FILES {
                assert(before_params =~= "✅ Git dry-run выполнен.\n\n📁 Изменённые файлы ("@ + decimal(n as nat)
                    + "):\n"@ + file_listing(views(files@)) + Seq::<char>::empty());
            }
        }
    }
    ExecutionResult { success: true, message: m, command_type: String::from_str("GIT_PUSH") }
}

/// The refusal of a dry run outside the project: it names the allowed root.
pub fn repo_path_refusal(project_root: &str, repo_path: &str) -> (r: ApiError)
    ensures
        r.error_type@ == "security_error"@,
        r.message@ == "❌ REPO_PATH должен находиться внутри проекта (безопасность)\n\nРазрешённый корень: "@
            + project_root@ + "\nПолучено: "@ + repo_path@,
{
    let mut m = concat3(
        "❌ REPO_PATH должен находиться внутри проекта (безопасность)\n\nРазрешённый корень: ",
        project_root,
        "\nПолучено: ",
    );
    m.append(repo_path);
    ApiError { error_type: String::from_str("security_error"), message: m }
}

/// The error of a dry run whose status query ran and failed with `stderr`.
pub fn git_status_failed(stderr: &str) -> (r: ApiError)
    ensures
        r.error_type@ == "git_error"@,
        r.message@ == "❌ Не удалось выполнить git status:\n"@ + stderr@,
{
    ApiError {
        error_type: String::from_str("git_error"),
        message: concat2("❌ Не удалось выполнить git status:\n", stderr),
    }
}

/// The error of a dry run whose status query could not run.
pub fn git_not_run(error: &str) -> (r: ApiError)
    ensures
        r.error_type@ == "git_error"@,
        r.message@ == "❌ Ошибка выполнения git:\n"@ + error@,
{
    ApiError {
        error_type: String::from_str("git_error"),
        message: concat2("❌ Ошибка выполнения git:\n", error),
    }
}

} // verus!
