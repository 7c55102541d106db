use nanites::combinators::{
    collect_in_order, MapTask, Refine, RefineNext, RefinementStep, Retry, RetryNext,
};
use nanites::error::RuntimeError;

#[test]
fn map_collects_in_order_or_first_error() {
    let _m = MapTask { inner: () };
    let ok: Vec<Result<i64, RuntimeError>> = vec![Ok(2), Ok(4), Ok(6)];
    assert_eq!(collect_in_order(ok).unwrap(), vec![2, 4, 6]);
    let mixed: Vec<Result<i64, RuntimeError>> = vec![
        Ok(1),
        Err(RuntimeError::TaskPanicked("first".into())),
        Err(RuntimeError::TaskPanicked("second".into())),
    ];
    match collect_in_order(mixed) {
        Err(RuntimeError::TaskPanicked(m)) => assert_eq!(m, "first"),
        other => panic!("unexpected {other:?}"),
    }
    let empty: Vec<Result<i64, RuntimeError>> = vec![];
    assert_eq!(collect_in_order(empty).unwrap(), Vec::<i64>::new());
}

#[test]
fn retry_stops_after_max_attempts_with_last_error() {
    let retry = Retry { inner: (), max_attempts: 3 };
    let mut state = retry.begin();
    let mut attempts = 0;
    let err = loop {
        match retry.next(&mut state, false) {
            RetryNext::Attempt => {
                attempts += 1;
                retry.failed(&mut state, RuntimeError::TaskPanicked(format!("attempt {attempts}")));
            }
            RetryNext::GiveUp(e) => break e,
        }
    };
    assert_eq!(attempts, 3);
    assert!(matches!(err, RuntimeError::TaskPanicked(m) if m == "attempt 3"));
}

#[test]
fn retry_with_zero_attempts_fails_at_once() {
    let retry = Retry { inner: (), max_attempts: 0 };
    let mut state = retry.begin();
    match retry.next(&mut state, false) {
        RetryNext::GiveUp(RuntimeError::TaskPanicked(m)) => {
            assert_eq!(m, "Retry: max_attempts is 0, no attempts were made")
        }
        other => panic!("unexpected {other:?}"),
    }
}

#[test]
fn retry_respects_cancellation() {
    let retry = Retry { inner: (), max_attempts: 5 };
    let mut state = retry.begin();
    assert!(matches!(retry.next(&mut state, true), RetryNext::GiveUp(RuntimeError::Cancelled)));
}

#[test]
fn refine_runs_until_done() {
    let refine = Refine { inner: (), max_iterations: 5 };
    let (mut state, mut next) = refine.begin::<String, String>("draft".to_string());
    let result = loop {
        match next {
            RefineNext::Finish(r) => break r,
            RefineNext::Run(input) => {
                let step = if input.len() > 20 {
                    RefinementStep::Done(input)
                } else {
                    RefinementStep::Continue(input + " (expanded)")
                };
                next = refine.after(&mut state, Ok(step), false);
            }
        }
    };
    assert_eq!(result.unwrap(), "draft (expanded) (expanded)");
    assert_eq!(state.runs, 3);
}

#[test]
fn refine_gives_up_after_max_iterations() {
    let refine = Refine { inner: (), max_iterations: 2 };
    let (mut state, mut next) = refine.begin::<u8, u8>(0);
    let result = loop {
        match next {
            RefineNext::Finish(r) => break r,
            RefineNext::Run(i) => next = refine.after(&mut state, Ok(RefinementStep::Continue(i + 1)), false),
        }
    };
    match result {
        Err(RuntimeError::TaskPanicked(m)) => {
            assert_eq!(m, "Refine: max_iterations (2) reached without convergence")
        }
        other => panic!("unexpected {other:?}"),
    }
    assert_eq!(state.runs, 2);
}

#[test]
fn refine_edge_cases() {
    let zero = Refine { inner: (), max_iterations: 0 };
    let (_, next) = zero.begin::<u8, u8>(1);
    assert!(matches!(next, RefineNext::Finish(Err(RuntimeError::TaskPanicked(m))) if m == "Refine: max_iterations (0) reached without convergence"));
    let r = Refine { inner: (), max_iterations: 4 };
    let (mut state, _) = r.begin::<u8, u8>(1);
    assert!(matches!(r.after::<u8, u8>(&mut state, Ok(RefinementStep::Continue(2)), true), RefineNext::Finish(Err(RuntimeError::Cancelled))));
    assert!(matches!(r.after::<u8, u8>(&mut state, Err(RuntimeError::Cancelled), false), RefineNext::Finish(Err(RuntimeError::Cancelled))));
}
