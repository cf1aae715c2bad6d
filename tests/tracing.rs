use std::ops::ControlFlow;

use trace_error::{CallSite, TracedError, TracedResult};

fn site(line: u32) -> CallSite {
    CallSite::new("src/app.rs", line, 5)
}

fn fail_at_a() -> TracedResult<u32, String> {
    TracedResult::Failure(TracedError::new(String::from("Bad"), site(10)))
}

fn forward_in_b() -> TracedResult<u32, String> {
    let v = match fail_at_a().branch(site(20)) {
        ControlFlow::Continue(v) => v,
        ControlFlow::Break(residual) => return TracedResult::from_residual(residual),
    };
    TracedResult::Success(v + 1)
}

fn forward_in_c() -> TracedResult<u32, String> {
    let v = match forward_in_b().branch(site(30)) {
        ControlFlow::Continue(v) => v,
        ControlFlow::Break(residual) => return TracedResult::from_residual(residual),
    };
    TracedResult::Success(v + 1)
}

fn forward_n(depth: u32) -> TracedResult<u32, String> {
    if depth == 0 {
        return fail_at_a();
    }
    match forward_n(depth - 1).branch(site(100 + depth)) {
        ControlFlow::Continue(v) => TracedResult::Success(v),
        ControlFlow::Break(residual) => TracedResult::from_residual(residual),
    }
}

fn recurse_same_site(depth: u32) -> TracedResult<u32, String> {
    if depth == 0 {
        return fail_at_a();
    }
    match recurse_same_site(depth - 1).branch(site(50)) {
        ControlFlow::Continue(v) => TracedResult::Success(v),
        ControlFlow::Break(residual) => TracedResult::from_residual(residual),
    }
}

fn narrow_failure() -> TracedResult<u8, u8> {
    TracedResult::Failure(TracedError::new(200u8, site(1)))
}

fn widen_on_forward() -> TracedResult<u8, u32> {
    match narrow_failure().branch(site(2)) {
        ControlFlow::Continue(v) => TracedResult::Success(v),
        ControlFlow::Break(residual) => TracedResult::from_residual(residual),
    }
}

#[test]
fn new_records_construction_site() {
    let e = TracedError::new(3i32, site(7));
    assert_eq!(e.trace(), &vec![site(7)]);
    assert_eq!(e.into_inner(), 3);
}

#[test]
fn split_keeps_both_parts() {
    let e = TracedError::new("oops", site(4));
    let (inner, trace) = e.split();
    assert_eq!(inner, "oops");
    assert_eq!(trace, vec![site(4)]);
    assert!(!trace.is_empty());
}

#[test]
fn call_site_accessors() {
    let s = CallSite::new("lib/x.rs", 12, 34);
    assert_eq!(s.file(), "lib/x.rs");
    assert_eq!(s.line(), 12);
    assert_eq!(s.column(), 34);
}

#[test]
fn three_level_scenario_trace() {
    let e = forward_in_c().unwrap_err();
    assert_eq!(e.trace(), &vec![site(10), site(20), site(30)]);
    assert_eq!(e.into_inner(), "Bad");
}

#[test]
fn three_level_scenario_render() {
    let e = forward_in_c().unwrap_err();
    let text = e.render("Bad");
    assert_eq!(
        text,
        "BadAt (30:5) in src/app.rs\nAt (20:5) in src/app.rs\nAt (10:5) in src/app.rs\n"
    );
}

#[test]
fn render_numbers_in_decimal() {
    let e = TracedError::new((), CallSite::new("f.rs", 0, 4294967295));
    assert_eq!(e.render(""), "At (0:4294967295) in f.rs\n");
    let e = TracedError::new((), CallSite::new("g.rs", 1009, 70));
    assert_eq!(e.render("m: "), "m: At (1009:70) in g.rs\n");
}

#[test]
fn forwarding_n_times_appends_n_sites() {
    let e = forward_n(5).unwrap_err();
    let trace = e.trace();
    assert_eq!(trace.len(), 6);
    assert_eq!(trace[0], site(10));
    for i in 1..6u32 {
        assert_eq!(trace[i as usize], site(100 + i));
    }
}

#[test]
fn same_site_twice_is_kept() {
    let e = recurse_same_site(2).unwrap_err();
    assert_eq!(e.trace(), &vec![site(10), site(50), site(50)]);
}

#[test]
fn each_instance_has_its_own_trace() {
    let mut traces = Vec::new();
    for _ in 0..3 {
        traces.push(forward_in_b().unwrap_err().split().1);
    }
    for t in traces {
        assert_eq!(t, vec![site(10), site(20)]);
    }
}

#[test]
fn success_passes_branch_untouched() {
    let r: TracedResult<u32, String> = TracedResult::from_output(9);
    match r.branch(site(3)) {
        ControlFlow::Continue(v) => assert_eq!(v, 9),
        ControlFlow::Break(_) => panic!("a success must continue"),
    }
}

#[test]
fn widening_keeps_trace_and_converts_value() {
    let e = widen_on_forward().unwrap_err();
    assert_eq!(e.trace(), &vec![site(1), site(2)]);
    assert_eq!(e.into_inner(), 200u32);
}

#[test]
fn map_err_keeps_trace() {
    let before = forward_in_b().unwrap_err().split().1;
    let e = forward_in_b().map_err(|s: String| s.len()).unwrap_err();
    assert_eq!(e.trace(), &before);
    assert_eq!(e.into_inner(), 3);
}

#[test]
fn map_err_on_success_is_identity() {
    let r: TracedResult<u32, String> = TracedResult::Success(4);
    assert_eq!(r.map_err(|s: String| s.len()).unwrap(), 4);
}

#[test]
fn into_result_freezes_trace() {
    let r = forward_in_b().into_result();
    match r {
        Err(e) => assert_eq!(e.trace(), &vec![site(10), site(20)]),
        Ok(_) => panic!("expected a failure"),
    }
    let ok: TracedResult<u32, String> = TracedResult::Success(1);
    assert!(matches!(ok.into_result(), Ok(1)));
}

#[test]
fn round_trip_keeps_error_and_trace() {
    let back = TracedResult::from_result(forward_in_b().into_result());
    let e = back.unwrap_err();
    assert_eq!(e.trace(), &vec![site(10), site(20)]);
    assert_eq!(e.into_inner(), "Bad");
    let ok = TracedResult::<u32, String>::from_result(Ok(8));
    assert_eq!(ok.unwrap(), 8);
}

#[test]
fn from_impls_round_trip() {
    let plain: Result<u32, TracedError<String>> = forward_in_b().into();
    let back: TracedResult<u32, String> = plain.into();
    assert_eq!(back.unwrap_err().trace(), &vec![site(10), site(20)]);
}

#[test]
fn map_on_success_applies_function() {
    let r: TracedResult<i32, String> = TracedResult::Success(5);
    assert_eq!(r.map(|x: i32| x * 2).unwrap(), 10);
}

#[test]
fn map_on_failure_is_unchanged() {
    let e = forward_in_b().map(|x: u32| x * 2).unwrap_err();
    assert_eq!(e.trace(), &vec![site(10), site(20)]);
    assert_eq!(e.into_inner(), "Bad");
}

#[test]
fn from_plain_wraps_bare_error() {
    let r = TracedResult::<u32, &str>::from_plain(Err("no"), site(77));
    let e = r.unwrap_err();
    assert_eq!(e.trace(), &vec![site(77)]);
    assert_eq!(e.into_inner(), "no");
    let ok = TracedResult::<u32, &str>::from_plain(Ok(2), site(78));
    assert_eq!(ok.unwrap(), 2);
}

#[test]
fn discard_call_stack_gives_bare_error() {
    assert_eq!(forward_in_b().discard_call_stack(), Err(String::from("Bad")));
    let ok: TracedResult<u32, String> = TracedResult::Success(6);
    assert_eq!(ok.discard_call_stack(), Ok(6));
}

#[test]
fn predicates() {
    let ok: TracedResult<u32, String> = TracedResult::Success(6);
    assert!(ok.is_ok());
    assert!(!ok.is_err());
    let err = fail_at_a();
    assert!(err.is_err());
    assert!(!err.is_ok());
}

#[test]
fn map_or_and_map_or_else() {
    let ok: TracedResult<u32, String> = TracedResult::Success(6);
    assert_eq!(ok.map_or(|x: u32| x + 1, 0), 7);
    assert_eq!(fail_at_a().map_or(|x: u32| x + 1, 0), 0);
    let ok: TracedResult<u32, String> = TracedResult::Success(6);
    assert_eq!(ok.map_or_else(|e: TracedError<String>| e.trace().len() as u32, |x: u32| x * 3), 18);
    assert_eq!(
        forward_in_b().map_or_else(|e: TracedError<String>| e.trace().len() as u32, |x: u32| x * 3),
        2
    );
}

#[test]
fn unwrap_or_variants() {
    let ok: TracedResult<u32, String> = TracedResult::Success(6);
    assert_eq!(ok.unwrap_or(1), 6);
    assert_eq!(fail_at_a().unwrap_or(1), 1);
    assert_eq!(fail_at_a().unwrap_or_default(), 0);
    let ok: TracedResult<u32, String> = TracedResult::Success(6);
    assert_eq!(ok.unwrap_or_default(), 6);
    assert_eq!(forward_in_b().unwrap_or_else(|e: TracedError<String>| e.trace().len() as u32), 2);
}

#[test]
fn unwrapping_accessors() {
    let ok: TracedResult<u32, String> = TracedResult::Success(6);
    assert_eq!(ok.expect("a value"), 6);
    let ok: TracedResult<u32, String> = TracedResult::Success(7);
    assert_eq!(ok.unwrap_unchecked(), 7);
    let e = fail_at_a().unwrap_err_unchecked();
    assert_eq!(e.trace(), &vec![site(10)]);
}

#[test]
fn inner_reads_error_without_consuming() {
    let e = TracedError::new(String::from("Bad"), site(10));
    assert_eq!(e.inner(), "Bad");
    assert_eq!(e.trace(), &vec![site(10)]);
}
