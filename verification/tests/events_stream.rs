use run_prompts::events::{stderr_log_event, stderr_log_events, stdout_log_event, stdout_log_events};
use run_prompts::launch::{plan_npm_run, PathFacts};
use run_prompts::registry::{Registry, Run};
use run_prompts::watcher::run_transcript;

#[test]
fn stdout_line_is_forwarded_unchanged() {
    let e = stdout_log_event(&"run-1".to_string(), "compiling...".to_string());
    assert_eq!(e.run_id, "run-1");
    assert_eq!(e.line, "compiling...");
}

#[test]
fn stderr_line_is_tagged() {
    let e = stderr_log_event(&"run-1".to_string(), &"warning: unused".to_string());
    assert_eq!(e.run_id, "run-1");
    assert_eq!(e.line, "[stderr] warning: unused");
}

#[test]
fn n_stdout_lines_give_n_events_in_order_then_exit_zero() {
    let mut reg = Registry::new();
    assert!(reg.insert(Run {
        run_id: "run-5".to_string(),
        label: "npm run build".to_string(),
        pid: 42,
    }));
    let lines: Vec<String> = (0..17).map(|i| format!("line {i}")).collect();
    let t = run_transcript(&mut reg, &"run-5".to_string(), &lines, &Vec::new(), Some(0));

    assert_eq!(t.stdout_events.len(), 17);
    for (i, e) in t.stdout_events.iter().enumerate() {
        assert_eq!(e.run_id, "run-5");
        assert_eq!(e.line, format!("line {i}"));
    }
    assert!(t.stderr_events.is_empty());

    let terminal = t.terminal.expect("exactly one terminal event");
    assert_eq!(terminal.run_id, "run-5");
    assert_eq!(terminal.label, "npm run build");
    assert_eq!(terminal.exit_code, Some(0));

    // The run is gone once the terminal event exists.
    assert!(reg.list().is_empty());
}

#[test]
fn stderr_lines_tagged_and_exit_seven_reported() {
    let mut reg = Registry::new();
    assert!(reg.insert(Run {
        run_id: "run-6".to_string(),
        label: "Analysis: proj".to_string(),
        pid: 43,
    }));
    let err_lines = vec!["boom".to_string(), "worse".to_string()];
    let t = run_transcript(&mut reg, &"run-6".to_string(), &Vec::new(), &err_lines, Some(7));

    assert!(t.stdout_events.is_empty());
    assert_eq!(t.stderr_events.len(), 2);
    assert_eq!(t.stderr_events[0].line, "[stderr] boom");
    assert_eq!(t.stderr_events[1].line, "[stderr] worse");
    assert_eq!(t.stderr_events[0].run_id, "run-6");

    let terminal = t.terminal.expect("exactly one terminal event");
    assert_eq!(terminal.exit_code, Some(7));
    assert_eq!(terminal.label, "Analysis: proj");
}

#[test]
fn transcript_of_untracked_run_has_no_terminal_event() {
    let mut reg = Registry::new();
    let lines = vec!["late output".to_string()];
    let t = run_transcript(&mut reg, &"run-8".to_string(), &lines, &Vec::new(), Some(0));
    assert_eq!(t.stdout_events.len(), 1);
    assert!(t.terminal.is_none());
}

#[test]
fn planned_label_reaches_the_terminal_event() {
    let plan = plan_npm_run(
        &"/proj".to_string(),
        PathFacts { exists: true, is_dir: true },
        &"build".to_string(),
    )
    .unwrap();

    let mut reg = Registry::new();
    assert!(reg.insert(Run { run_id: "run-11".to_string(), label: plan.label, pid: 9 }));
    let t = run_transcript(
        &mut reg,
        &"run-11".to_string(),
        &vec!["done".to_string()],
        &Vec::new(),
        Some(0),
    );
    let terminal = t.terminal.expect("tracked run");
    assert_eq!(terminal.label, "npm run build");
    assert_eq!(terminal.exit_code, Some(0));
}

#[test]
fn batch_builders_keep_stream_order() {
    let id = "run-2".to_string();
    let lines = vec!["a".to_string(), "b".to_string(), "c".to_string()];
    let out = stdout_log_events(&id, &lines);
    let errs = stderr_log_events(&id, &lines);
    assert_eq!(out.len(), 3);
    assert_eq!(errs.len(), 3);
    for i in 0..3 {
        assert_eq!(out[i].line, lines[i]);
        assert_eq!(errs[i].line, format!("[stderr] {}", lines[i]));
    }
}
