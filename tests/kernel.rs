use web_bench::kernel::{bench, mix_loop, run_kernel, BenchQuery, DEFAULT_OPS, INCREMENT, MULTIPLIER};

fn reference_acc(n: u64) -> u64 {
    let mut acc: u64 = 0;
    for i in 0..n {
        acc = acc.wrapping_mul(1664525).wrapping_add(1013904223) ^ i;
    }
    acc
}

#[test]
fn zero_ops_gives_zero_acc() {
    assert_eq!(mix_loop(0), 0);
    let r = run_kernel(0);
    assert_eq!(r.ops, 0);
    assert_eq!(r.acc, 0);
}

#[test]
fn one_op_gives_increment() {
    assert_eq!(mix_loop(1), 1013904223);
    assert_eq!(run_kernel(1).acc, 1013904223 ^ 0);
}

#[test]
fn two_ops_closed_form() {
    let expected = 1013904223u64.wrapping_mul(1664525).wrapping_add(1013904223) ^ 1;
    assert_eq!(mix_loop(2), expected);
    assert_eq!(run_kernel(2).acc, expected);
}

#[test]
fn ten_ops_matches_recurrence() {
    let mut acc: u64 = 0;
    for i in 0..10u64 {
        acc = acc.wrapping_mul(1664525).wrapping_add(1013904223) ^ i;
    }
    let r = bench(&BenchQuery { ops: Some(10) });
    assert_eq!(r.ops, 10);
    assert_eq!(r.acc, acc);
}

#[test]
fn constants_are_numerical_recipes() {
    assert_eq!(MULTIPLIER, 1664525);
    assert_eq!(INCREMENT, 1013904223);
    assert_eq!(DEFAULT_OPS, 5_000_000);
}

#[test]
fn default_query_runs_five_million() {
    let q = BenchQuery { ops: None };
    assert_eq!(q.ops_or_default(), 5_000_000);
    let r = bench(&q);
    assert_eq!(r.ops, 5_000_000);
    assert_eq!(r.acc, reference_acc(5_000_000));
}

#[test]
fn explicit_query_is_used() {
    let q = BenchQuery { ops: Some(0) };
    assert_eq!(q.ops_or_default(), 0);
    let r = bench(&q);
    assert_eq!(r.ops, 0);
    assert_eq!(r.acc, 0);
}

#[test]
fn repeated_runs_agree() {
    let a = run_kernel(1_000_000);
    let b = run_kernel(1_000_000);
    assert_eq!(a.acc, b.acc);
    assert_eq!(a.acc, reference_acc(1_000_000));
}
