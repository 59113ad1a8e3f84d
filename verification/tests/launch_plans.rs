use run_prompts::launch::{
    plan_analysis_run, plan_implement_all, plan_npm_run, plan_script_run,
    plan_script_run_with_projects, plan_terminal_agent, valid_script_name, LaunchError, PathFacts,
    RunScriptArgs, TimingParams,
};
use run_prompts::labels::{
    analysis_label, implement_all_label, npm_label, script_run_label, terminal_agent_label,
    trim_label,
};
use run_prompts::launch::{
    analysis_script_path, extended_path, implement_all_script_path, join_path,
    run_terminal_agent_script_path, script_path, temp_file_path,
};

fn dir_ok() -> PathFacts {
    PathFacts { exists: true, is_dir: true }
}

fn missing() -> PathFacts {
    PathFacts { exists: false, is_dir: false }
}

fn timing() -> TimingParams {
    TimingParams {
        sleep_after_open_project: "1.5".to_string(),
        sleep_after_window_focus: "0.5".to_string(),
        sleep_between_shift_tabs: "0.2".to_string(),
        sleep_after_all_shift_tabs: "0.3".to_string(),
        sleep_after_cmd_n: "0.4".to_string(),
        sleep_before_paste: "0.6".to_string(),
        sleep_after_paste: "0.7".to_string(),
        sleep_after_enter: "0.8".to_string(),
        sleep_between_projects: "2".to_string(),
        sleep_between_rounds: "3".to_string(),
    }
}

#[test]
fn script_paths_are_fixed_workspace_locations() {
    let ws = "/ws".to_string();
    assert_eq!(script_path(&ws), "/ws/script/run_prompts_all_projects.sh");
    assert_eq!(analysis_script_path(&ws), "/ws/script/run_analysis_single_project.sh");
    assert_eq!(implement_all_script_path(&ws), "/ws/script/worker/implement_all.sh");
    assert_eq!(run_terminal_agent_script_path(&ws), "/ws/script/worker/run_terminal_agent.sh");
    assert_eq!(join_path(&"/a".to_string(), "b"), "/a/b");
}

#[test]
fn temp_files_embed_the_run_id() {
    let p = temp_file_path(&"/tmp".to_string(), "run_prompts_", &"run-12".to_string(), ".json");
    assert_eq!(p, "/tmp/run_prompts_run-12.json");
    // A temporary directory handed over with a trailing separator gains
    // no second one.
    let q = temp_file_path(&"/tmp/".to_string(), "run_prompts_", &"run-12".to_string(), ".json");
    assert_eq!(q, "/tmp/run_prompts_run-12.json");
}

#[test]
fn join_adds_a_separator_only_where_one_is_missing() {
    assert_eq!(join_path(&"a".to_string(), "b"), "a/b");
    assert_eq!(join_path(&"a/".to_string(), "b"), "a/b");
    assert_eq!(join_path(&"".to_string(), "b"), "b");
    assert_eq!(
        script_path(&"/ws/".to_string()),
        "/ws/script/run_prompts_all_projects.sh"
    );
    // An empty workspace keeps the script path relative.
    assert_eq!(script_path(&"".to_string()), "script/run_prompts_all_projects.sh");
    assert_eq!(
        implement_all_script_path(&"a/".to_string()),
        "a/script/worker/implement_all.sh"
    );
}

#[test]
fn script_name_allow_list() {
    assert!(valid_script_name(&"dev:full".to_string()));
    assert!(valid_script_name(&"build-prod_2".to_string()));
    assert!(!valid_script_name(&"".to_string()));
    assert!(!valid_script_name(&"; rm -rf /".to_string()));
    assert!(!valid_script_name(&"a b".to_string()));
    assert!(!valid_script_name(&"x$(y)".to_string()));
    assert!(!valid_script_name(&"ok|nope".to_string()));
}

#[test]
fn npm_plan_rejects_shell_metacharacters_synchronously() {
    let r = plan_npm_run(&"/proj".to_string(), dir_ok(), &"; rm -rf /".to_string());
    assert_eq!(r.unwrap_err(), LaunchError::InvalidScriptName);
}

#[test]
fn npm_plan_rejects_missing_target() {
    let r = plan_npm_run(&"/proj".to_string(), missing(), &"build".to_string());
    assert_eq!(r.unwrap_err(), LaunchError::InvalidPath);
}

#[test]
fn npm_plan_builds_the_exact_command() {
    let plan = plan_npm_run(&"/proj".to_string(), dir_ok(), &"dev:full".to_string()).unwrap();
    assert_eq!(plan.program, "npm");
    assert_eq!(plan.args, vec!["run", "dev:full"]);
    assert_eq!(plan.cwd, "/proj");
    assert!(plan.env.is_empty());
    assert!(plan.files.is_empty());
    assert_eq!(plan.label, "npm run dev:full");
}

#[test]
fn analysis_plan_rejects_missing_target_before_anything_else() {
    let r = plan_analysis_run(&"/ws".to_string(), &"/nope".to_string(), missing(), true);
    assert_eq!(r.unwrap_err(), LaunchError::InvalidPath);
}

#[test]
fn analysis_plan_rejects_absent_script() {
    let r = plan_analysis_run(&"/ws".to_string(), &"/proj".to_string(), dir_ok(), false);
    assert_eq!(r.unwrap_err(), LaunchError::ScriptNotFound);
}

#[test]
fn analysis_plan_builds_the_exact_command() {
    let plan =
        plan_analysis_run(&"/ws".to_string(), &"/code/myproj".to_string(), dir_ok(), true).unwrap();
    assert_eq!(plan.program, "bash");
    assert_eq!(
        plan.args,
        vec!["/ws/script/run_analysis_single_project.sh", "-P", "/code/myproj"]
    );
    assert_eq!(plan.cwd, "/ws");
    assert_eq!(plan.label, "Analysis: myproj");
    assert!(plan.files.is_empty());
}

#[test]
fn implement_all_plan_with_slot_and_prompt() {
    let plan = plan_implement_all(
        &"/ws".to_string(),
        &"/tmp".to_string(),
        &"run-3".to_string(),
        &"/proj".to_string(),
        Some(2),
        Some("do it all".to_string()),
        dir_ok(),
        true,
    )
    .unwrap();
    assert_eq!(plan.program, "bash");
    assert_eq!(
        plan.args,
        vec![
            "/ws/script/worker/implement_all.sh",
            "-P",
            "/proj",
            "-S",
            "2",
            "-F",
            "/tmp/kw_implement_all_prompt_run-3.txt",
        ]
    );
    assert_eq!(plan.label, "Implement All (Terminal 2)");
    assert_eq!(plan.files.len(), 1);
    assert_eq!(plan.files[0].path, "/tmp/kw_implement_all_prompt_run-3.txt");
    assert_eq!(plan.files[0].content, "do it all");
}

#[test]
fn implement_all_ignores_out_of_range_slot() {
    let plan = plan_implement_all(
        &"/ws".to_string(),
        &"/tmp".to_string(),
        &"run-4".to_string(),
        &"/proj".to_string(),
        Some(5),
        None,
        dir_ok(),
        true,
    )
    .unwrap();
    assert_eq!(plan.args, vec!["/ws/script/worker/implement_all.sh", "-P", "/proj"]);
    assert_eq!(plan.label, "Implement All");
    assert!(plan.files.is_empty());
}

#[test]
fn implement_all_rejects_missing_target() {
    let r = plan_implement_all(
        &"/ws".to_string(),
        &"/tmp".to_string(),
        &"run-4".to_string(),
        &"/nope".to_string(),
        None,
        None,
        missing(),
        true,
    );
    assert_eq!(r.unwrap_err(), LaunchError::InvalidPath);
}

#[test]
fn terminal_agent_plan_builds_prompt_file_and_path() {
    let plan = plan_terminal_agent(
        &"/ws/script/worker/run_terminal_agent.sh".to_string(),
        &"/ws".to_string(),
        &"/tmp".to_string(),
        &"run-8".to_string(),
        &"/proj".to_string(),
        "fix the bug".to_string(),
        &"  my agent  ".to_string(),
        dir_ok(),
        true,
        &Some("/home/u".to_string()),
        &Some("/usr/bin".to_string()),
    )
    .unwrap();
    assert_eq!(plan.program, "bash");
    assert_eq!(
        plan.args,
        vec![
            "/ws/script/worker/run_terminal_agent.sh",
            "-P",
            "/proj",
            "-F",
            "/tmp/kw_run_terminal_agent_prompt_run-8.txt",
        ]
    );
    assert_eq!(plan.cwd, "/ws");
    assert_eq!(plan.label, "my agent");
    assert_eq!(plan.files.len(), 1);
    assert_eq!(plan.files[0].content, "fix the bug");
    assert_eq!(plan.env.len(), 1);
    assert_eq!(plan.env[0].0, "PATH");
    assert_eq!(plan.env[0].1, "/home/u/.local/bin:/usr/local/bin:/usr/bin");
}

#[test]
fn terminal_agent_label_defaults_when_blank() {
    let plan = plan_terminal_agent(
        &"/s.sh".to_string(),
        &"/ws".to_string(),
        &"/tmp".to_string(),
        &"run-9".to_string(),
        &"/proj".to_string(),
        "p".to_string(),
        &"   ".to_string(),
        dir_ok(),
        true,
        &None,
        &None,
    )
    .unwrap();
    assert_eq!(plan.label, "Terminal agent");
    assert!(plan.env.is_empty());
}

#[test]
fn script_run_plan_with_prompt_ids() {
    let args = RunScriptArgs {
        prompt_ids: vec![1, 12, 105],
        combined_prompt: None,
        active_projects: Vec::new(),
        timing: timing(),
        run_label: None,
    };
    let plan = plan_script_run(
        &"/ws".to_string(),
        &"/data".to_string(),
        &"/tmp".to_string(),
        &"run-1".to_string(),
        true,
        args,
    )
    .unwrap();
    assert_eq!(plan.program, "bash");
    assert_eq!(
        plan.args,
        vec![
            "/ws/script/run_prompts_all_projects.sh",
            "-p",
            "1",
            "12",
            "105",
            "/data/cursor_projects.json",
        ]
    );
    assert_eq!(plan.label, "Manual run");
    assert!(plan.files.is_empty());
    assert_eq!(plan.env.len(), 10);
    assert_eq!(plan.env[0], ("SLEEP_AFTER_OPEN_PROJECT".to_string(), "1.5".to_string()));
    assert_eq!(plan.env[9], ("SLEEP_BETWEEN_ROUNDS".to_string(), "3".to_string()));
}

#[test]
fn script_run_plan_with_combined_prompt_and_projects() {
    let projects = vec!["/a".to_string(), "/b".to_string()];
    let args = RunScriptArgs {
        prompt_ids: Vec::new(),
        combined_prompt: Some("one big prompt".to_string()),
        active_projects: projects.clone(),
        timing: timing(),
        run_label: Some("Feature run".to_string()),
    };
    let plan = plan_script_run(
        &"/ws".to_string(),
        &"/data".to_string(),
        &"/tmp".to_string(),
        &"run-2".to_string(),
        true,
        args,
    )
    .unwrap();
    assert_eq!(
        plan.args,
        vec![
            "/ws/script/run_prompts_all_projects.sh",
            "-F",
            "/tmp/run_combined_prompt_run-2.txt",
            "/tmp/run_prompts_run-2.json",
        ]
    );
    assert_eq!(plan.label, "Feature run");
    assert_eq!(plan.files.len(), 2);
    assert_eq!(plan.files[0].path, "/tmp/run_prompts_run-2.json");
    // The projects file is real JSON of the list, not the list echoed back.
    assert_eq!(plan.files[0].content, serde_json::to_string_pretty(&projects).unwrap());
    assert_ne!(plan.files[0].content, "/a");
    let parsed: Vec<String> = serde_json::from_str(&plan.files[0].content).unwrap();
    assert_eq!(parsed, projects);
    assert_eq!(plan.files[1].path, "/tmp/run_combined_prompt_run-2.txt");
    assert_eq!(plan.files[1].content, "one big prompt");
}

#[test]
fn script_run_plan_rejects_absent_script() {
    let args = RunScriptArgs {
        prompt_ids: vec![1],
        combined_prompt: None,
        active_projects: Vec::new(),
        timing: timing(),
        run_label: None,
    };
    let r = plan_script_run(
        &"/ws".to_string(),
        &"/data".to_string(),
        &"/tmp".to_string(),
        &"run-1".to_string(),
        false,
        args,
    );
    assert_eq!(r.unwrap_err(), LaunchError::ScriptNotFound);
    // The script's absence is the only rejection: with a project list to
    // render, the same error comes back, and with the script on disk the
    // same request always plans.
    let with_projects = |script_exists: bool| {
        plan_script_run(
            &"/ws".to_string(),
            &"/data".to_string(),
            &"/tmp".to_string(),
            &"run-1".to_string(),
            script_exists,
            RunScriptArgs {
                prompt_ids: vec![1],
                combined_prompt: None,
                active_projects: vec!["/a".to_string()],
                timing: timing(),
                run_label: None,
            },
        )
    };
    assert_eq!(with_projects(false).unwrap_err(), LaunchError::ScriptNotFound);
    assert!(with_projects(true).is_ok());
}

#[test]
fn pre_rendered_projects_json_is_planned_verbatim() {
    let plan = plan_script_run_with_projects(
        &"/ws".to_string(),
        &"/data".to_string(),
        &"/tmp".to_string(),
        &"run-6".to_string(),
        true,
        vec![4],
        None,
        Some("[\"/a\"]".to_string()),
        timing(),
        None,
    )
    .unwrap();
    assert_eq!(plan.files.len(), 1);
    assert_eq!(plan.files[0].path, "/tmp/run_prompts_run-6.json");
    assert_eq!(plan.files[0].content, "[\"/a\"]");
    assert_eq!(
        plan.args,
        vec![
            "/ws/script/run_prompts_all_projects.sh",
            "-p",
            "4",
            "/tmp/run_prompts_run-6.json",
        ]
    );
}

#[test]
fn labels_render_exactly() {
    assert_eq!(implement_all_label(Some(1)), "Implement All (Terminal 1)");
    assert_eq!(implement_all_label(Some(3)), "Implement All (Terminal 3)");
    assert_eq!(implement_all_label(None), "Implement All");
    assert_eq!(implement_all_label(Some(9)), "Implement All");
    assert_eq!(analysis_label(&"/code/myproj/".to_string()), "Analysis: myproj");
    assert_eq!(analysis_label(&"relative".to_string()), "Analysis: relative");
    assert_eq!(analysis_label(&"/".to_string()), "Analysis: project");
    assert_eq!(analysis_label(&"/a/..".to_string()), "Analysis: project");
    assert_eq!(analysis_label(&"".to_string()), "Analysis: project");
    // Trailing `.` components name their directory, as a path's file
    // name is found.
    assert_eq!(analysis_label(&"/a/.".to_string()), "Analysis: a");
    assert_eq!(analysis_label(&"foo.txt/.//".to_string()), "Analysis: foo.txt");
    assert_eq!(analysis_label(&".".to_string()), "Analysis: project");
    assert_eq!(analysis_label(&"a.".to_string()), "Analysis: a.");
    assert_eq!(npm_label(&"build".to_string()), "npm run build");
    assert_eq!(script_run_label(Some("X".to_string())), "X");
    assert_eq!(script_run_label(None), "Manual run");
    assert_eq!(terminal_agent_label(&"\t hi \n".to_string()), "hi");
    // The whole Unicode white-space set is trimmed: form feed, vertical
    // tab, no-break space, ideographic space.
    assert_eq!(terminal_agent_label(&"\u{0C}\u{0B}".to_string()), "Terminal agent");
    assert_eq!(terminal_agent_label(&"\u{A0}agent\u{3000}".to_string()), "agent");
    assert_eq!(trim_label(&"  a b  ".to_string()), "a b");
    assert_eq!(trim_label(&"   ".to_string()), "");
    assert_eq!(trim_label(&"\u{2028}x\u{205F}".to_string()), "x");
}

#[test]
fn extended_path_prefers_local_bins() {
    let home = "/home/u".to_string();
    assert_eq!(extended_path(&home, &None), "/home/u/.local/bin:/usr/local/bin");
    assert_eq!(extended_path(&home, &Some("".to_string())), "/home/u/.local/bin:/usr/local/bin");
    assert_eq!(
        extended_path(&home, &Some("/usr/bin:/bin".to_string())),
        "/home/u/.local/bin:/usr/local/bin:/usr/bin:/bin"
    );
}

#[test]
fn error_messages_name_the_rejection() {
    assert_eq!(LaunchError::ScriptNotFound.message(), "script not found");
    assert_eq!(
        LaunchError::InvalidScriptName.message(),
        "invalid script name: only letters, numbers, hyphen, underscore and colon allowed"
    );
    assert_eq!(LaunchError::InvalidPath.message(), "target path is missing or not a directory");
    assert_eq!(LaunchError::SpawnFailure.message(), "failed to start process");
    assert_eq!(LaunchError::IoFailure.message(), "failed to write auxiliary file");
}
