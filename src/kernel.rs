use vstd::prelude::*;

verus! {

/// Multiplier of the mixing recurrence (the Numerical Recipes LCG constant).
pub const MULTIPLIER: u64 = 1664525;

/// Increment of the mixing recurrence (the Numerical Recipes LCG constant).
pub const INCREMENT: u64 = 1013904223;

/// Number of iterations run when a request names none.
pub const DEFAULT_OPS: u64 = 5000000;

/// One iteration of the recurrence: `((acc * a) + c) mod 2^64`, then XOR with
/// the iteration index.
pub open spec fn mix_step(acc: u64, i: u64) -> u64 {
    ((((acc as nat) * (MULTIPLIER as nat) + (INCREMENT as nat)) % 0x1_0000_0000_0000_0000nat) as u64) ^ i
}

/// The accumulator after `n` iterations, starting from zero; iteration `i`
/// (counted from zero) mixes in the index `i`.
pub open spec fn acc_after(n: nat) -> u64
    decreases n,
{
    if n == 0 {
        0
    } else {
        mix_step(acc_after((n - 1) as nat), (n - 1) as u64)
    }
}

proof fn lemma_wrapping_step(acc: u64)
    ensures
        vstd::wrapping::u64_specs::wrapping_add(
            vstd::wrapping::u64_specs::wrapping_mul(acc, MULTIPLIER),
            INCREMENT,
        ) == (((acc as nat) * (MULTIPLIER as nat) + (INCREMENT as nat)) % 0x1_0000_0000_0000_0000nat) as u64,
{
    let r: nat = 0x1_0000_0000_0000_0000nat;
    let p: nat = (acc as nat) * (MULTIPLIER as nat);
    let m: nat = p % r;
    vstd::arithmetic::div_mod::lemma_add_mod_noop(p as int, INCREMENT as int, r as int);
    vstd::arithmetic::div_mod::lemma_mod_twice(p as int, r as int);
    vstd::arithmetic::div_mod::lemma_small_mod(INCREMENT as nat, r);
    if m + INCREMENT > u64::MAX {
        vstd::arithmetic::div_mod::lemma_mod_sub_multiples_vanish((m + INCREMENT) as int, r as int);
        vstd::arithmetic::div_mod::lemma_small_mod((m + INCREMENT - r) as nat, r);
    } else {
        vstd::arithmetic::div_mod::lemma_small_mod((m + INCREMENT) as nat, r);
    }
}

/// Runs `ops` iterations of the mixing recurrence from a zero accumulator and
/// returns the final accumulator. Each intermediate value passes through an
/// optimisation barrier so that the loop cannot be folded away.
pub fn mix_loop(ops: u64) -> (acc: u64)
    ensures
        acc == acc_after(ops as nat),
{
    let mut acc: u64 = 0;
    for i in 0..ops
        invariant
            acc == acc_after(i as nat),
    {
        proof {
            lemma_wrapping_step(acc);
        }
        acc = acc.wrapping_mul(MULTIPLIER).wrapping_add(INCREMENT) ^ i;
        core::hint::black_box(acc);
    }
    acc
}

/// Relies on core::hint::black_box: an identity function that the optimiser
/// must treat as an arbitrary use of its argument.
pub assume_specification<T>[ core::hint::black_box::<T> ](dummy: T) -> (r: T)
    ensures
        r == dummy,
;

#[verifier::external_type_specification]
#[verifier::external_body]
pub struct ExInstant(std::time::Instant);

/// Relies on std::time::Instant::now: reads the monotonic clock. Nothing is
/// promised of the reading.
#[verifier::external_body]
fn clock_now() -> (r: std::time::Instant) {
    std::time::Instant::now()
}

/// Relies on std::time::Instant::elapsed: the time passed since `start` on the
/// monotonic clock. Nothing is promised of the length.
#[verifier::external_body]
fn clock_elapsed(start: &std::time::Instant) -> (r: std::time::Duration) {
    start.elapsed()
}

/// The parameters of a benchmark request.
#[derive(Clone, Copy, Debug, PartialEq, Eq)]
pub struct BenchQuery {
    /// Number of iterations to run; `None` asks for [`DEFAULT_OPS`].
    pub ops: Option<u64>,
}

impl BenchQuery {
    /// The iteration count that the query asks for.
    pub open spec fn ops_spec(&self) -> u64 {
        match self.ops {
            Some(n) => n,
            None => DEFAULT_OPS,
        }
    }

    /// The iteration count that the query asks for: its own, or
    /// [`DEFAULT_OPS`] when it names none.
    pub fn ops_or_default(&self) -> (r: u64)
        ensures
            r == self.ops_spec(),
    {
        match self.ops {
            Some(n) => n,
            None => DEFAULT_OPS,
        }
    }
}

/// The outcome of one benchmark run: the iteration count used, the final
/// accumulator and the wall-clock time the loop took.
#[derive(Clone, Copy, Debug)]
pub struct BenchRun {
    pub ops: u64,
    pub acc: u64,
    pub elapsed: std::time::Duration,
}

impl BenchRun {
    /// A run is well formed when its accumulator is the one that its
    /// iteration count determines.
    pub open spec fn wf(&self) -> bool {
        self.acc == acc_after(self.ops as nat)
    }
}

/// Runs the kernel for `ops` iterations, timing the loop on the monotonic
/// clock from just before the first iteration to just after the last.
pub fn run_kernel(ops: u64) -> (r: BenchRun)
    ensures
        r.ops == ops,
        r.acc == acc_after(ops as nat),
{
    let start = clock_now();
    let acc = mix_loop(ops);
    let elapsed = clock_elapsed(&start);
    BenchRun { ops, acc, elapsed }
}

/// Serves a benchmark request: runs the kernel for the iteration count that
/// the query asks for.
pub fn bench(q: &BenchQuery) -> (r: BenchRun)
    ensures
        r.ops == q.ops_spec(),
        r.acc == acc_after(q.ops_spec() as nat),
{
    run_kernel(q.ops_or_default())
}

/// The accumulator is a function of the iteration count alone: two well
/// formed runs over the same count, wherever and whenever they ran, agree on
/// it.
pub proof fn lemma_run_deterministic(a: BenchRun, b: BenchRun)
    requires
        a.wf(),
        b.wf(),
        a.ops == b.ops,
    ensures
        a.acc == b.acc,
{
}

} // verus!
