//! The process launcher's decisions: validating a launch request and
//! translating it into a fully built command — program, arguments,
//! environment, working directory, and the auxiliary files to write
//! first. The caller performs the file-system checks and the spawn and
//! feeds their outcomes in as plain values; every rejection here is
//! synchronous and happens before any process exists or any run is
//! registered.

use vstd::prelude::*;
use crate::text::spec_decimal;
use crate::labels::{
    spec_npm_label, npm_label, spec_analysis_label, analysis_label, spec_implement_all_label,
    implement_all_label, spec_terminal_agent_label, terminal_agent_label, spec_script_run_label,
    script_run_label,
};

verus! {

/// Why a launch request was rejected before any process was spawned.
/// After a successful spawn no further errors are raised through the
/// launch interface: script failures surface only as a non-zero exit
/// code in the terminal event.
#[derive(Clone, Copy, Debug, PartialEq, Eq, Structural)]
pub enum LaunchError {
    /// The target directory is missing or not a directory.
    InvalidPath,
    /// The expected script file is absent from disk.
    ScriptNotFound,
    /// The package-manager script name fails the allow-list check.
    InvalidScriptName,
    /// The operating system could not create the process.
    SpawnFailure,
    /// An auxiliary prompt or argument file could not be produced.
    IoFailure,
}

impl LaunchError {
    /// A short description of the rejection, for surfacing to a caller.
    pub fn message(&self) -> (r: &'static str)
        ensures
            *self is InvalidPath ==> r@ == "target path is missing or not a directory"@,
            *self is ScriptNotFound ==> r@ == "script not found"@,
            *self is InvalidScriptName ==>
                r@ == "invalid script name: only letters, numbers, hyphen, underscore and colon allowed"@,
            *self is SpawnFailure ==> r@ == "failed to start process"@,
            *self is IoFailure ==> r@ == "failed to write auxiliary file"@,
    {
        match self {
            LaunchError::InvalidPath => "target path is missing or not a directory",
            LaunchError::ScriptNotFound => "script not found",
            LaunchError::InvalidScriptName =>
                "invalid script name: only letters, numbers, hyphen, underscore and colon allowed",
            LaunchError::SpawnFailure => "failed to start process",
            LaunchError::IoFailure => "failed to write auxiliary file",
        }
    }
}

/// What the launcher knows about a path after the caller checked the
/// file system: whether it exists, and whether it is a directory.
#[derive(Clone, Copy, Debug, PartialEq, Eq, Structural)]
pub struct PathFacts {
    pub exists: bool,
    pub is_dir: bool,
}

/// One auxiliary file to create before the spawn: freeform text is
/// always passed by file, never interpolated into a command line.
#[derive(Debug)]
pub struct PlannedFile {
    pub path: String,
    pub content: String,
}

/// A fully built launch command: write the planned files, then spawn
/// `program` with `args` and `env` in `cwd`, piping stdout and stderr
/// and detaching the child into its own process group.
#[derive(Debug)]
pub struct LaunchPlan {
    pub program: String,
    pub args: Vec<String>,
    pub env: Vec<(String, String)>,
    pub cwd: String,
    pub files: Vec<PlannedFile>,
    pub label: String,
}

/// Joins a base path and one relative part with a single separator: no
/// separator is added after an empty base or one already ending in a
/// separator, so the base keeps its relative or absolute character and
/// no separator is doubled.
pub open spec fn spec_join(base: Seq<char>, part: Seq<char>) -> Seq<char> {
    if base.len() == 0 {
        part
    } else if base[base.len() - 1] == '/' {
        base + part
    } else {
        base + "/"@ + part
    }
}

pub fn join_path(base: &String, part: &str) -> (r: String)
    ensures
        r@ == spec_join(base@, part@),
{
    let s = base.as_str();
    let n = s.unicode_len();
    if n == 0 {
        return part.to_owned();
    }
    let mut r = base.clone();
    if s.get_char(n - 1) != '/' {
        r.append("/");
    }
    r.append(part);
    r
}

/// Location of the multi-project prompt-run script inside a workspace.
pub open spec fn spec_script_path(ws: Seq<char>) -> Seq<char> {
    spec_join(ws, "script/run_prompts_all_projects.sh"@)
}

pub fn script_path(ws: &String) -> (r: String)
    ensures
        r@ == spec_script_path(ws@),
{
    join_path(ws, "script/run_prompts_all_projects.sh")
}

/// Location of the single-project analysis script inside a workspace.
pub open spec fn spec_analysis_script_path(ws: Seq<char>) -> Seq<char> {
    spec_join(ws, "script/run_analysis_single_project.sh"@)
}

pub fn analysis_script_path(ws: &String) -> (r: String)
    ensures
        r@ == spec_analysis_script_path(ws@),
{
    join_path(ws, "script/run_analysis_single_project.sh")
}

/// Location of the batch "implement all" script inside a workspace.
pub open spec fn spec_implement_all_script_path(ws: Seq<char>) -> Seq<char> {
    spec_join(ws, "script/worker/implement_all.sh"@)
}

pub fn implement_all_script_path(ws: &String) -> (r: String)
    ensures
        r@ == spec_implement_all_script_path(ws@),
{
    join_path(ws, "script/worker/implement_all.sh")
}

/// Location of the interactive terminal-agent script inside a workspace.
pub open spec fn spec_run_terminal_agent_script_path(ws: Seq<char>) -> Seq<char> {
    spec_join(ws, "script/worker/run_terminal_agent.sh"@)
}

pub fn run_terminal_agent_script_path(ws: &String) -> (r: String)
    ensures
        r@ == spec_run_terminal_agent_script_path(ws@),
{
    join_path(ws, "script/worker/run_terminal_agent.sh")
}

/// The path of a fresh auxiliary file: the caller's temporary directory,
/// a purpose prefix, the run identifier, and an extension. Embedding the
/// run identifier keeps files of concurrent runs apart.
pub open spec fn spec_temp_file_path(
    temp_dir: Seq<char>,
    prefix: Seq<char>,
    run_id: Seq<char>,
    ext: Seq<char>,
) -> Seq<char> {
    spec_join(temp_dir, prefix + run_id + ext)
}

pub fn temp_file_path(temp_dir: &String, prefix: &str, run_id: &String, ext: &str) -> (r: String)
    ensures
        r@ == spec_temp_file_path(temp_dir@, prefix@, run_id@, ext@),
{
    let mut name = prefix.to_owned();
    name.append(run_id.as_str());
    name.append(ext);
    join_path(temp_dir, name.as_str())
}

/// A character the package-manager script allow-list accepts: ASCII
/// letters and digits, hyphen, underscore, and colon (for names such as
/// `dev:full`).
pub open spec fn spec_script_name_char(c: char) -> bool {
    ||| ('a' as u32 <= c as u32 && c as u32 <= 'z' as u32)
    ||| ('A' as u32 <= c as u32 && c as u32 <= 'Z' as u32)
    ||| ('0' as u32 <= c as u32 && c as u32 <= '9' as u32)
    ||| c == '-'
    ||| c == '_'
    ||| c == ':'
}

/// The allow-list for package-manager script names: nonempty, every
/// character from the allow-list. Anything else is rejected outright,
/// since the name is caller-controlled free text bound for a shell
/// invocation.
pub open spec fn spec_valid_script_name(s: Seq<char>) -> bool {
    s.len() > 0 && forall|i: int| 0 <= i < s.len() ==> spec_script_name_char(#[trigger] s[i])
}

/// Checks a package-manager script name against the allow-list.
pub fn valid_script_name(name: &String) -> (b: bool)
    ensures
        b == spec_valid_script_name(name@),
{
    let s = name.as_str();
    let n = s.unicode_len();
    if n == 0 {
        return false;
    }
    let mut i: usize = 0;
    while i < n
        invariant
            s@ == name@,
            n == s@.len(),
            0 <= i <= n,
            forall|j: int| 0 <= j < i ==> spec_script_name_char(#[trigger] s@[j]),
        decreases n - i,
    {
        let c = s.get_char(i);
        let u = c as u32;
        let ok = ('a' as u32 <= u && u <= 'z' as u32) || ('A' as u32 <= u && u <= 'Z' as u32)
            || ('0' as u32 <= u && u <= '9' as u32) || c == '-' || c == '_' || c == ':';
        if !ok {
            proof {
                assert(name@[i as int] == c);
                assert(!spec_script_name_char(name@[i as int]));
            }
            return false;
        }
        i = i + 1;
    }
    true
}

/// The timing knobs of a multi-project prompt run, already rendered to
/// the text the automation script reads from its environment.
pub struct TimingParams {
    pub sleep_after_open_project: String,
    pub sleep_after_window_focus: String,
    pub sleep_between_shift_tabs: String,
    pub sleep_after_all_shift_tabs: String,
    pub sleep_after_cmd_n: String,
    pub sleep_before_paste: String,
    pub sleep_after_paste: String,
    pub sleep_after_enter: String,
    pub sleep_between_projects: String,
    pub sleep_between_rounds: String,
}

/// A multi-project prompt-run request: either a list of numeric prompt
/// identifiers or one freeform combined prompt (passed by file, never on
/// the command line), the projects to run against, the timing knobs, and
/// an optional display label.
pub struct RunScriptArgs {
    pub prompt_ids: Vec<u32>,
    pub combined_prompt: Option<String>,
    pub active_projects: Vec<String>,
    pub timing: TimingParams,
    pub run_label: Option<String>,
}

/// The environment handed to the prompt-run script: one variable per
/// timing knob.
pub open spec fn spec_timing_env(t: TimingParams) -> Seq<(Seq<char>, Seq<char>)> {
    seq![
        ("SLEEP_AFTER_OPEN_PROJECT"@, t.sleep_after_open_project@),
        ("SLEEP_AFTER_WINDOW_FOCUS"@, t.sleep_after_window_focus@),
        ("SLEEP_BETWEEN_SHIFT_TABS"@, t.sleep_between_shift_tabs@),
        ("SLEEP_AFTER_ALL_SHIFT_TABS"@, t.sleep_after_all_shift_tabs@),
        ("SLEEP_AFTER_CMD_N"@, t.sleep_after_cmd_n@),
        ("SLEEP_BEFORE_PASTE"@, t.sleep_before_paste@),
        ("SLEEP_AFTER_PASTE"@, t.sleep_after_paste@),
        ("SLEEP_AFTER_ENTER"@, t.sleep_after_enter@),
        ("SLEEP_BETWEEN_PROJECTS"@, t.sleep_between_projects@),
        ("SLEEP_BETWEEN_ROUNDS"@, t.sleep_between_rounds@),
    ]
}

fn timing_env(t: &TimingParams) -> (e: Vec<(String, String)>)
    ensures
        e.deep_view() =~= spec_timing_env(*t),
{
    let mut e: Vec<(String, String)> = Vec::new();
    e.push(("SLEEP_AFTER_OPEN_PROJECT".to_owned(), t.sleep_after_open_project.clone()));
    e.push(("SLEEP_AFTER_WINDOW_FOCUS".to_owned(), t.sleep_after_window_focus.clone()));
    e.push(("SLEEP_BETWEEN_SHIFT_TABS".to_owned(), t.sleep_between_shift_tabs.clone()));
    e.push(("SLEEP_AFTER_ALL_SHIFT_TABS".to_owned(), t.sleep_after_all_shift_tabs.clone()));
    e.push(("SLEEP_AFTER_CMD_N".to_owned(), t.sleep_after_cmd_n.clone()));
    e.push(("SLEEP_BEFORE_PASTE".to_owned(), t.sleep_before_paste.clone()));
    e.push(("SLEEP_AFTER_PASTE".to_owned(), t.sleep_after_paste.clone()));
    e.push(("SLEEP_AFTER_ENTER".to_owned(), t.sleep_after_enter.clone()));
    e.push(("SLEEP_BETWEEN_PROJECTS".to_owned(), t.sleep_between_projects.clone()));
    e.push(("SLEEP_BETWEEN_ROUNDS".to_owned(), t.sleep_between_rounds.clone()));
    e
}

/// The JSON text of a list of strings, as the JSON encoder renders it.
pub uninterp spec fn spec_json_of_strings(v: Seq<Seq<char>>) -> Seq<char>;

/// Relies on serde_json::to_string_pretty: pretty-prints a list of
/// strings as a JSON array. The text is a function of the list alone,
/// and the call cannot fail: its only error source is the writer, and
/// the in-memory byte-vector writer used here is infallible.
#[verifier::external_body]
fn json_encode_string_list(v: &Vec<String>) -> (r: String)
    ensures
        r@ == spec_json_of_strings(v.deep_view()),
{
    serde_json::to_string_pretty(v).expect("in-memory rendering of a string list cannot fail")
}

/// The search path handed to a terminal-agent run: the user's local bin
/// directories in front of the inherited path, so CLI tools resolve even
/// when the launcher itself was started with a minimal environment.
pub open spec fn spec_extended_path(home: Seq<char>, path_var: Option<Seq<char>>) -> Seq<char> {
    let extra = home + "/.local/bin:/usr/local/bin"@;
    match path_var {
        None => extra,
        Some(p) => if p.len() == 0 {
            extra
        } else {
            extra + ":"@ + p
        },
    }
}

pub fn extended_path(home: &String, path_var: &Option<String>) -> (r: String)
    ensures
        r@ == spec_extended_path(home@, path_var.deep_view()),
{
    let mut extra = home.clone();
    extra.append("/.local/bin:/usr/local/bin");
    match path_var {
        None => extra,
        Some(p) => {
            if p.as_str().unicode_len() == 0 {
                extra
            } else {
                extra.append(":");
                extra.append(p.as_str());
                extra
            }
        },
    }
}

/// The path of the temporary projects file of one prompt run.
pub open spec fn spec_projects_file_path(temp_dir: Seq<char>, run_id: Seq<char>) -> Seq<char> {
    spec_temp_file_path(temp_dir, "run_prompts_"@, run_id, ".json"@)
}

/// The path of the temporary combined-prompt file of one prompt run.
pub open spec fn spec_combined_prompt_path(temp_dir: Seq<char>, run_id: Seq<char>) -> Seq<char> {
    spec_temp_file_path(temp_dir, "run_combined_prompt_"@, run_id, ".txt"@)
}

/// The path of the temporary prompt file of one "implement all" run.
pub open spec fn spec_implement_all_prompt_path(
    temp_dir: Seq<char>,
    run_id: Seq<char>,
) -> Seq<char> {
    spec_temp_file_path(temp_dir, "kw_implement_all_prompt_"@, run_id, ".txt"@)
}

/// The path of the temporary prompt file of one terminal-agent run.
pub open spec fn spec_terminal_agent_prompt_path(
    temp_dir: Seq<char>,
    run_id: Seq<char>,
) -> Seq<char> {
    spec_temp_file_path(temp_dir, "kw_run_terminal_agent_prompt_"@, run_id, ".txt"@)
}

/// The projects file used when no explicit project list was given: the
/// persisted one in the data directory.
pub open spec fn spec_default_projects_file(data_dir: Seq<char>) -> Seq<char> {
    spec_join(data_dir, "cursor_projects.json"@)
}

/// Builds the command of an arbitrary package-manager script run. The
/// script name is validated against the allow-list before anything else:
/// a name with any other character — whitespace, quotes, shell
/// metacharacters — is rejected as `InvalidScriptName` and no command is
/// built, since the name would otherwise reach a shell invocation. The
/// target must be an existing directory (`project_dir` is the caller's
/// canonicalized form of it).
pub fn plan_npm_run(project_dir: &String, dir_facts: PathFacts, script_name: &String) -> (r:
    Result<LaunchPlan, LaunchError>)
    ensures
        !spec_valid_script_name(script_name@) ==> r == Err::<LaunchPlan, LaunchError>(
            LaunchError::InvalidScriptName),
        spec_valid_script_name(script_name@) && !(dir_facts.exists && dir_facts.is_dir)
            ==> r == Err::<LaunchPlan, LaunchError>(LaunchError::InvalidPath),
        spec_valid_script_name(script_name@) && dir_facts.exists && dir_facts.is_dir ==> {
            &&& r is Ok
            &&& r.unwrap().program@ == "npm"@
            &&& r.unwrap().args.deep_view() =~= seq!["run"@, script_name@]
            &&& r.unwrap().env@.len() == 0
            &&& r.unwrap().cwd@ == project_dir@
            &&& r.unwrap().files@.len() == 0
            &&& r.unwrap().label@ == spec_npm_label(script_name@)
        },
{
    if !valid_script_name(script_name) {
        return Err(LaunchError::InvalidScriptName);
    }
    if !(dir_facts.exists && dir_facts.is_dir) {
        return Err(LaunchError::InvalidPath);
    }
    let mut args: Vec<String> = Vec::new();
    args.push("run".to_owned());
    args.push(script_name.clone());
    let label = npm_label(script_name);
    Ok(
        LaunchPlan {
            program: "npm".to_owned(),
            args,
            env: Vec::new(),
            cwd: project_dir.clone(),
            files: Vec::new(),
            label,
        },
    )
}

/// Builds the command of a single-project analysis run: the analysis
/// script of the workspace, pointed at the target directory. The target
/// must be an existing directory and the script must be on disk before
/// anything is spawned.
pub fn plan_analysis_run(
    ws: &String,
    project_path: &String,
    target: PathFacts,
    script_exists: bool,
) -> (r: Result<LaunchPlan, LaunchError>)
    ensures
        !(target.exists && target.is_dir) ==> r == Err::<LaunchPlan, LaunchError>(
            LaunchError::InvalidPath),
        target.exists && target.is_dir && !script_exists ==> r == Err::<LaunchPlan, LaunchError>(
            LaunchError::ScriptNotFound),
        target.exists && target.is_dir && script_exists ==> {
            &&& r is Ok
            &&& r.unwrap().program@ == "bash"@
            &&& r.unwrap().args.deep_view() =~= seq![
                spec_analysis_script_path(ws@),
                "-P"@,
                project_path@,
            ]
            &&& r.unwrap().env@.len() == 0
            &&& r.unwrap().cwd@ == ws@
            &&& r.unwrap().files@.len() == 0
            &&& r.unwrap().label@ == spec_analysis_label(project_path@)
        },
{
    if !(target.exists && target.is_dir) {
        return Err(LaunchError::InvalidPath);
    }
    if !script_exists {
        return Err(LaunchError::ScriptNotFound);
    }
    let script = analysis_script_path(ws);
    let mut args: Vec<String> = Vec::new();
    args.push(script);
    args.push("-P".to_owned());
    args.push(project_path.clone());
    let label = analysis_label(project_path);
    Ok(
        LaunchPlan {
            program: "bash".to_owned(),
            args,
            env: Vec::new(),
            cwd: ws.clone(),
            files: Vec::new(),
            label,
        },
    )
}

/// Builds the command of a batch "implement all" run against one target
/// directory, optionally pinned to one of three execution slots and
/// optionally fed a freeform prompt. The prompt, when given, is planned
/// as a fresh temporary file named after the run and passed by path; a
/// slot outside 1–3 is ignored rather than rejected.
pub fn plan_implement_all(
    ws: &String,
    temp_dir: &String,
    run_id: &String,
    project_path: &String,
    slot: Option<u8>,
    prompt_content: Option<String>,
    target: PathFacts,
    script_exists: bool,
) -> (r: Result<LaunchPlan, LaunchError>)
    ensures
        !(target.exists && target.is_dir) ==> r == Err::<LaunchPlan, LaunchError>(
            LaunchError::InvalidPath),
        target.exists && target.is_dir && !script_exists ==> r == Err::<LaunchPlan, LaunchError>(
            LaunchError::ScriptNotFound),
        target.exists && target.is_dir && script_exists ==> {
            &&& r is Ok
            &&& r.unwrap().program@ == "bash"@
            &&& r.unwrap().args.deep_view() =~= {
                let base = seq![spec_implement_all_script_path(ws@), "-P"@, project_path@];
                let with_slot = match slot {
                    Some(s) => if 1 <= s <= 3 {
                        base + seq!["-S"@, spec_decimal(s as nat)]
                    } else {
                        base
                    },
                    None => base,
                };
                match prompt_content {
                    Some(_) => with_slot + seq![
                        "-F"@,
                        spec_implement_all_prompt_path(temp_dir@, run_id@),
                    ],
                    None => with_slot,
                }
            }
            &&& r.unwrap().env@.len() == 0
            &&& r.unwrap().cwd@ == ws@
            &&& (match prompt_content {
                Some(c) => r.unwrap().files@.len() == 1 && r.unwrap().files@[0].path@
                    == spec_implement_all_prompt_path(temp_dir@, run_id@)
                    && r.unwrap().files@[0].content@ == c@,
                None => r.unwrap().files@.len() == 0,
            })
            &&& r.unwrap().label@ == spec_implement_all_label(slot)
        },
{
    if !(target.exists && target.is_dir) {
        return Err(LaunchError::InvalidPath);
    }
    if !script_exists {
        return Err(LaunchError::ScriptNotFound);
    }
    let script = implement_all_script_path(ws);
    let mut args: Vec<String> = Vec::new();
    args.push(script);
    args.push("-P".to_owned());
    args.push(project_path.clone());
    match slot {
        Some(s) => {
            if 1 <= s && s <= 3 {
                args.push("-S".to_owned());
                args.push(crate::text::decimal_string(s as u64));
            }
        },
        None => {},
    }
    let mut files: Vec<PlannedFile> = Vec::new();
    match prompt_content {
        Some(c) => {
            let path = temp_file_path(temp_dir, "kw_implement_all_prompt_", run_id, ".txt");
            args.push("-F".to_owned());
            args.push(path.clone());
            files.push(PlannedFile { path, content: c });
        },
        None => {},
    }
    let label = implement_all_label(slot);
    Ok(
        LaunchPlan {
            program: "bash".to_owned(),
            args,
            env: Vec::new(),
            cwd: ws.clone(),
            files,
            label,
        },
    )
}

/// Builds the command of an interactive terminal-agent run: the given
/// worker script, pointed at the target directory and fed the prompt
/// through a fresh temporary file named after the run. When the caller's
/// home directory is known, the run gets a search path extended with the
/// user's local bin directories.
pub fn plan_terminal_agent(
    script_path: &String,
    current_dir: &String,
    temp_dir: &String,
    run_id: &String,
    project_path: &String,
    prompt_content: String,
    label: &String,
    target: PathFacts,
    script_exists: bool,
    home: &Option<String>,
    path_var: &Option<String>,
) -> (r: Result<LaunchPlan, LaunchError>)
    ensures
        !(target.exists && target.is_dir) ==> r == Err::<LaunchPlan, LaunchError>(
            LaunchError::InvalidPath),
        target.exists && target.is_dir && !script_exists ==> r == Err::<LaunchPlan, LaunchError>(
            LaunchError::ScriptNotFound),
        target.exists && target.is_dir && script_exists ==> {
            &&& r is Ok
            &&& r.unwrap().program@ == "bash"@
            &&& r.unwrap().args.deep_view() =~= seq![
                script_path@,
                "-P"@,
                project_path@,
                "-F"@,
                spec_terminal_agent_prompt_path(temp_dir@, run_id@),
            ]
            &&& (match home.deep_view() {
                Some(h) => r.unwrap().env.deep_view() =~= seq![
                    ("PATH"@, spec_extended_path(h, path_var.deep_view())),
                ],
                None => r.unwrap().env@.len() == 0,
            })
            &&& r.unwrap().cwd@ == current_dir@
            &&& r.unwrap().files@.len() == 1
            &&& r.unwrap().files@[0].path@ == spec_terminal_agent_prompt_path(temp_dir@, run_id@)
            &&& r.unwrap().files@[0].content@ == prompt_content@
            &&& r.unwrap().label@ == spec_terminal_agent_label(label@)
        },
{
    if !(target.exists && target.is_dir) {
        return Err(LaunchError::InvalidPath);
    }
    if !script_exists {
        return Err(LaunchError::ScriptNotFound);
    }
    let prompt_path = temp_file_path(temp_dir, "kw_run_terminal_agent_prompt_", run_id, ".txt");
    let mut args: Vec<String> = Vec::new();
    args.push(script_path.clone());
    args.push("-P".to_owned());
    args.push(project_path.clone());
    args.push("-F".to_owned());
    args.push(prompt_path.clone());
    let mut env: Vec<(String, String)> = Vec::new();
    match home {
        Some(h) => {
            env.push(("PATH".to_owned(), extended_path(h, path_var)));
        },
        None => {},
    }
    let mut files: Vec<PlannedFile> = Vec::new();
    files.push(PlannedFile { path: prompt_path, content: prompt_content });
    let run_label = terminal_agent_label(label);
    Ok(
        LaunchPlan {
            program: "bash".to_owned(),
            args,
            env,
            cwd: current_dir.clone(),
            files,
            label: run_label,
        },
    )
}

/// Builds the command of a multi-project prompt run. The prompts are
/// either named by numeric identifier on the command line or — for a
/// freeform combined prompt, which is attacker-adjacent free text too
/// large and unsafe for a single argument — planned as a fresh temporary
/// file and passed by path. The project list has already been rendered
/// to JSON by the caller and is planned as a fresh file of its own;
/// without one, the persisted projects file of the data directory is
/// used. Every input the script location admits gives a plan.
pub fn plan_script_run_with_projects(
    ws: &String,
    data_dir: &String,
    temp_dir: &String,
    run_id: &String,
    script_exists: bool,
    prompt_ids: Vec<u32>,
    combined_prompt: Option<String>,
    projects_json: Option<String>,
    timing: TimingParams,
    run_label: Option<String>,
) -> (r: Result<LaunchPlan, LaunchError>)
    ensures
        r is Ok <==> script_exists,
        !script_exists ==> r == Err::<LaunchPlan, LaunchError>(LaunchError::ScriptNotFound),
        r is Ok ==> {
            let plan = r.unwrap();
            let projects_path = if projects_json is None {
                spec_default_projects_file(data_dir@)
            } else {
                spec_projects_file_path(temp_dir@, run_id@)
            };
            &&& plan.program@ == "bash"@
            &&& plan.cwd@ == ws@
            &&& plan.env.deep_view() =~= spec_timing_env(timing)
            &&& plan.label@ == spec_script_run_label(run_label.deep_view())
            &&& (match combined_prompt {
                Some(c) => {
                    &&& plan.args.deep_view() =~= seq![
                        spec_script_path(ws@),
                        "-F"@,
                        spec_combined_prompt_path(temp_dir@, run_id@),
                        projects_path,
                    ]
                    &&& plan.files@.len() == (if projects_json is None { 1int } else { 2int })
                    &&& plan.files@.last().path@ == spec_combined_prompt_path(temp_dir@, run_id@)
                    &&& plan.files@.last().content@ == c@
                },
                None => {
                    &&& plan.args@.len() == 3 + prompt_ids@.len()
                    &&& plan.args.deep_view()[0] == spec_script_path(ws@)
                    &&& plan.args.deep_view()[1] == "-p"@
                    &&& forall|j: int| 0 <= j < prompt_ids@.len()
                        ==> plan.args.deep_view()[2 + j] == spec_decimal(
                            #[trigger] prompt_ids@[j] as nat)
                    &&& plan.args.deep_view()[plan.args@.len() - 1] == projects_path
                    &&& plan.files@.len() == (if projects_json is None { 0int } else { 1int })
                },
            })
            &&& (match projects_json {
                Some(json) => plan.files@[0].path@ == spec_projects_file_path(temp_dir@, run_id@)
                    && plan.files@[0].content@ == json@,
                None => true,
            })
        },
{
    if !script_exists {
        return Err(LaunchError::ScriptNotFound);
    }
    let mut files: Vec<PlannedFile> = Vec::new();
    let projects_path: String = match projects_json {
        None => join_path(data_dir, "cursor_projects.json"),
        Some(json) => {
            let p = temp_file_path(temp_dir, "run_prompts_", run_id, ".json");
            files.push(PlannedFile { path: p.clone(), content: json });
            p
        },
    };
    let script = script_path(ws);
    let mut argv: Vec<String> = Vec::new();
    argv.push(script);
    match combined_prompt {
        Some(c) => {
            let prompt_path = temp_file_path(temp_dir, "run_combined_prompt_", run_id, ".txt");
            argv.push("-F".to_owned());
            argv.push(prompt_path.clone());
            files.push(PlannedFile { path: prompt_path, content: c });
        },
        None => {
            argv.push("-p".to_owned());
            let n = prompt_ids.len();
            let mut i: usize = 0;
            while i < n
                invariant
                    n == prompt_ids@.len(),
                    0 <= i <= n,
                    argv@.len() == 2 + i,
                    argv.deep_view()[0] == spec_script_path(ws@),
                    argv.deep_view()[1] == "-p"@,
                    forall|j: int| 0 <= j < i ==> argv.deep_view()[2 + j] == spec_decimal(
                        #[trigger] prompt_ids@[j] as nat),
                decreases n - i,
            {
                let rendered = crate::text::decimal_string(prompt_ids[i] as u64);
                argv.push(rendered);
                i = i + 1;
            }
        },
    }
    argv.push(projects_path);
    let env = timing_env(&timing);
    let label = script_run_label(run_label);
    Ok(
        LaunchPlan {
            program: "bash".to_owned(),
            args: argv,
            env,
            cwd: ws.clone(),
            files,
            label,
        },
    )
}

/// Builds the command of a multi-project prompt run from a full request:
/// renders the project list to JSON — an in-memory rendering that
/// cannot fail — and hands the rest to
/// [`plan_script_run_with_projects`]: every request plans once the
/// script is on disk.
pub fn plan_script_run(
    ws: &String,
    data_dir: &String,
    temp_dir: &String,
    run_id: &String,
    script_exists: bool,
    args: RunScriptArgs,
) -> (r: Result<LaunchPlan, LaunchError>)
    ensures
        r is Ok <==> script_exists,
        !script_exists ==> r == Err::<LaunchPlan, LaunchError>(LaunchError::ScriptNotFound),
        r is Ok ==> {
            let plan = r.unwrap();
            let projects_path = if args.active_projects@.len() == 0 {
                spec_default_projects_file(data_dir@)
            } else {
                spec_projects_file_path(temp_dir@, run_id@)
            };
            &&& plan.program@ == "bash"@
            &&& plan.cwd@ == ws@
            &&& plan.env.deep_view() =~= spec_timing_env(args.timing)
            &&& plan.label@ == spec_script_run_label(args.run_label.deep_view())
            &&& (match args.combined_prompt {
                Some(c) => {
                    &&& plan.args.deep_view() =~= seq![
                        spec_script_path(ws@),
                        "-F"@,
                        spec_combined_prompt_path(temp_dir@, run_id@),
                        projects_path,
                    ]
                    &&& plan.files@.len() == (if args.active_projects@.len() == 0 { 1int } else {
                        2int
                    })
                    &&& plan.files@.last().path@ == spec_combined_prompt_path(temp_dir@, run_id@)
                    &&& plan.files@.last().content@ == c@
                },
                None => {
                    &&& plan.args@.len() == 3 + args.prompt_ids@.len()
                    &&& plan.args.deep_view()[0] == spec_script_path(ws@)
                    &&& plan.args.deep_view()[1] == "-p"@
                    &&& forall|j: int| 0 <= j < args.prompt_ids@.len()
                        ==> plan.args.deep_view()[2 + j] == spec_decimal(
                            #[trigger] args.prompt_ids@[j] as nat)
                    &&& plan.args.deep_view()[plan.args@.len() - 1] == projects_path
                    &&& plan.files@.len() == (if args.active_projects@.len() == 0 { 0int } else {
                        1int
                    })
                },
            })
            &&& args.active_projects@.len() > 0 ==> {
                &&& plan.files@[0].path@ == spec_projects_file_path(temp_dir@, run_id@)
                &&& plan.files@[0].content@ == spec_json_of_strings(
                    args.active_projects.deep_view())
            }
        },
{
    let RunScriptArgs { prompt_ids, combined_prompt, active_projects, timing, run_label } = args;
    if active_projects.len() == 0 {
        plan_script_run_with_projects(
            ws,
            data_dir,
            temp_dir,
            run_id,
            script_exists,
            prompt_ids,
            combined_prompt,
            None,
            timing,
            run_label,
        )
    } else {
        let json = json_encode_string_list(&active_projects);
        plan_script_run_with_projects(
            ws,
            data_dir,
            temp_dir,
            run_id,
            script_exists,
            prompt_ids,
            combined_prompt,
            Some(json),
            timing,
            run_label,
        )
    }
}

} // verus!
