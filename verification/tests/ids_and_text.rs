use run_prompts::ids::{gen_run_id, run_id_string, try_gen_run_id, IdGen};
use run_prompts::text::decimal_string;

#[test]
fn decimal_renders_exact_values() {
    assert_eq!(decimal_string(0), "0");
    assert_eq!(decimal_string(7), "7");
    assert_eq!(decimal_string(10), "10");
    assert_eq!(decimal_string(105), "105");
    assert_eq!(decimal_string(u64::MAX), "18446744073709551615");
}

#[test]
fn run_id_text_has_prefix_and_digits() {
    assert_eq!(run_id_string(42), "run-42");
    assert_eq!(run_id_string(0), "run-0");
}

#[test]
fn ids_distinct_under_rapid_launches() {
    // Same clock reading for every call: the generator must still never
    // repeat an identifier within its lifetime.
    let mut gen = IdGen::new();
    let now = 1_700_000_000_000_000_000u64;
    let mut seen: Vec<String> = Vec::new();
    for _ in 0..100 {
        let id = gen_run_id(&mut gen, now);
        assert!(!seen.contains(&id), "duplicate run id {id}");
        seen.push(id);
    }
}

#[test]
fn try_gen_issues_while_capacity_lasts() {
    let mut gen = IdGen::new();
    let a = try_gen_run_id(&mut gen, 9).expect("fresh generator has capacity");
    let b = try_gen_run_id(&mut gen, 9).expect("capacity left");
    assert_eq!(a, "run-9");
    assert_eq!(b, "run-10");
    // Exhaust the space: the last possible number is handed out once,
    // then issuing stops instead of repeating an identifier.
    let c = try_gen_run_id(&mut gen, u64::MAX).expect("one number left");
    assert_eq!(c, format!("run-{}", u64::MAX));
    assert!(try_gen_run_id(&mut gen, 0).is_none());
    assert!(try_gen_run_id(&mut gen, u64::MAX).is_none());
}

#[test]
fn ids_distinct_across_clock_regress() {
    // A clock that jumps backwards must not cause a collision either.
    let mut gen = IdGen::new();
    let a = gen_run_id(&mut gen, 5_000);
    let b = gen_run_id(&mut gen, 1_000);
    let c = gen_run_id(&mut gen, 1_000);
    assert_ne!(a, b);
    assert_ne!(a, c);
    assert_ne!(b, c);
    assert_eq!(a, "run-5000");
    assert_eq!(b, "run-5001");
    assert_eq!(c, "run-5002");
}
