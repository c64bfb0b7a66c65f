//! Log file rotation at start-up: `app.log` becomes `app.log.1`, each
//! `app.log.N` becomes `app.log.N+1`, and the oldest (`app.log.9`) is dropped.
//!
//! The files are removed and renamed by the caller, in the order of the plan.

use crate::text::{concat, decimal_text, u64_to_decimal};
use vstd::prelude::*;

verus! {

/// Number of rotated log files kept.
pub const MAX_LOG_FILES: u8 = 9;

/// A file operation of a rotation.
#[derive(Debug)]
pub enum LogFileOp {
    /// Delete the file
    Remove(String),
    /// Rename a file (replacing the target)
    Rename { from: String, to: String },
}

/// A rotation step on log generations (0 is the current log, `k` is `app.log.k`).
pub enum RotationStep {
    Remove(nat),
    Rename(nat, nat),
}

/// Name of log generation `k`.
pub open spec fn generation_name(log_name: Seq<char>, k: nat) -> Seq<char> {
    if k == 0 {
        log_name
    } else {
        log_name + "."@ + decimal_text(k)
    }
}

/// Whether an operation is the step on the named files.
pub open spec fn op_is_step(op: LogFileOp, step: RotationStep, log_name: Seq<char>) -> bool {
    match (op, step) {
        (LogFileOp::Remove(f), RotationStep::Remove(k)) => f@ == generation_name(log_name, k),
        (LogFileOp::Rename { from, to }, RotationStep::Rename(a, b)) => from@ == generation_name(
            log_name,
            a,
        ) && to@ == generation_name(log_name, b),
        _ => false,
    }
}

/// The renames of generations `k` down to 1, each to the next generation,
/// for the generations that exist (`exists[j]` tells whether `app.log.j+1` exists).
pub open spec fn shift_steps(exists: Seq<bool>, k: nat) -> Seq<RotationStep>
    decreases k,
{
    if k == 0 {
        Seq::empty()
    } else {
        let rest = shift_steps(exists, (k - 1) as nat);
        if exists[k - 1] {
            seq![RotationStep::Rename(k, k + 1)] + rest
        } else {
            rest
        }
    }
}

/// The rotation: nothing when there is no current log; else the oldest
/// generation is removed if it exists, the others move up by one from the
/// oldest down, and the current log becomes generation 1.
pub open spec fn rotation_steps(current_exists: bool, exists: Seq<bool>) -> Seq<RotationStep> {
    if !current_exists {
        Seq::empty()
    } else {
        (if exists[8] {
            seq![RotationStep::Remove(9)]
        } else {
            Seq::empty()
        }) + shift_steps(exists, 8) + seq![RotationStep::Rename(0, 1)]
    }
}

/// Plan the rotation of a log file. `numbered_exist[k - 1]` tells whether
/// `log_name.k` exists, for `k` from 1 to 9.
pub fn rotation_plan(log_name: &str, current_exists: bool, numbered_exist: &Vec<bool>) -> (plan: Vec<
    LogFileOp,
>)
    requires
        numbered_exist@.len() == 9,
    ensures
        plan@.len() == rotation_steps(current_exists, numbered_exist@).len(),
        forall|i: int|
            0 <= i < plan@.len() ==> op_is_step(
                #[trigger] plan@[i],
                rotation_steps(current_exists, numbered_exist@)[i],
                log_name@,
            ),
{
    let mut plan: Vec<LogFileOp> = Vec::new();
    if !current_exists {
        return plan;
    }
    let ghost ex = numbered_exist@;
    let ghost first: Seq<RotationStep> = if ex[8] {
        seq![RotationStep::Remove(9)]
    } else {
        Seq::empty()
    };
    if numbered_exist[8] {
        plan.push(LogFileOp::Remove(generation_file(log_name, 9)));
    }
    let mut k: u64 = 8;
    while k > 0
        invariant
            k <= 8,
            ex == numbered_exist@,
            ex.len() == 9,
            first == (if ex[8] {
                seq![RotationStep::Remove(9)]
            } else {
                Seq::<RotationStep>::empty()
            }),
            plan@.len() + shift_steps(ex, k as nat).len() == first.len() + shift_steps(ex, 8).len(),
            first.len() + shift_steps(ex, 8).len() == plan@.len() + shift_steps(ex, k as nat).len(),
            forall|i: int|
                0 <= i < plan@.len() ==> op_is_step(
                    #[trigger] plan@[i],
                    (first + shift_steps(ex, 8))[i],
                    log_name@,
                ),
            first + shift_steps(ex, 8) == plan_prefix_steps(first, ex, k as nat) + shift_steps(ex, k as nat),
            plan_prefix_steps(first, ex, k as nat).len() == plan@.len(),
        decreases k,
    {
        proof {
            lemma_prefix_step(first, ex, k as nat);
        }
        if numbered_exist[(k - 1) as usize] {
            let ghost before = plan@;
            plan.push(
                LogFileOp::Rename {
                    from: generation_file(log_name, k),
                    to: generation_file(log_name, k + 1),
                },
            );
            assert forall|i: int|
                0 <= i < plan@.len() implies op_is_step(
                #[trigger] plan@[i],
                (first + shift_steps(ex, 8))[i],
                log_name@,
            ) by {
                if i < before.len() {
                    assert(plan@[i] == before[i]);
                }
            }
        }
        k = k - 1;
    }
    assert(shift_steps(ex, 0) =~= Seq::<RotationStep>::empty());
    let ghost before = plan@;
    plan.push(LogFileOp::Rename { from: String::from_str(log_name), to: generation_file(log_name, 1) });
    assert forall|i: int|
        0 <= i < plan@.len() implies op_is_step(
        #[trigger] plan@[i],
        rotation_steps(current_exists, ex)[i],
        log_name@,
    ) by {
        assert(rotation_steps(current_exists, ex) == first + shift_steps(ex, 8) + seq![RotationStep::Rename(0, 1)]);
        if i < before.len() {
            assert(plan@[i] == before[i]);
        }
    }
    plan
}

/// The steps planned before generation `k` is considered: the removal, then
/// the renames of generations 8 down to `k + 1`.
pub open spec fn plan_prefix_steps(first: Seq<RotationStep>, exists: Seq<bool>, k: nat) -> Seq<
    RotationStep,
>
    decreases 8 - k,
{
    if k >= 8 {
        first
    } else {
        let before = plan_prefix_steps(first, exists, k + 1);
        if exists[k as int] {
            before.push(RotationStep::Rename(k + 1, k + 2))
        } else {
            before
        }
    }
}

proof fn lemma_prefix_step(first: Seq<RotationStep>, exists: Seq<bool>, k: nat)
    requires
        1 <= k <= 8,
    ensures
        plan_prefix_steps(first, exists, (k - 1) as nat) == (if exists[k - 1] {
            plan_prefix_steps(first, exists, k).push(RotationStep::Rename(k, k + 1))
        } else {
            plan_prefix_steps(first, exists, k)
        }),
        plan_prefix_steps(first, exists, k) + shift_steps(exists, k) == plan_prefix_steps(
            first,
            exists,
            (k - 1) as nat,
        ) + shift_steps(exists, (k - 1) as nat),
{
    let rest = shift_steps(exists, (k - 1) as nat);
    let p = plan_prefix_steps(first, exists, k);
    if exists[k - 1] {
        assert(p + (seq![RotationStep::Rename(k, k + 1)] + rest) =~= p.push(RotationStep::Rename(k, k + 1)) + rest);
    }
}

/// The name of log generation `k` (1 to 9).
fn generation_file(log_name: &str, k: u64) -> (name: String)
    requires
        1 <= k <= 9,
    ensures
        name@ == generation_name(log_name@, k as nat),
{
    let dotted = concat(log_name, ".");
    let digits = u64_to_decimal(k);
    concat(dotted.as_str(), digits.as_str())
}

/// Which generations exist after a step (`present[k]` for generation `k`).
pub open spec fn apply_step(present: Seq<bool>, step: RotationStep) -> Seq<bool> {
    match step {
        RotationStep::Remove(k) => present.update(k as int, false),
        RotationStep::Rename(a, b) => present.update(b as int, present[a as int]).update(a as int, false),
    }
}

/// Which generations exist after the steps, in order.
pub open spec fn apply_steps(present: Seq<bool>, steps: Seq<RotationStep>) -> Seq<bool>
    decreases steps.len(),
{
    if steps.len() == 0 {
        present
    } else {
        apply_steps(apply_step(present, steps[0]), steps.drop_first())
    }
}

proof fn lemma_apply_steps_concat(present: Seq<bool>, a: Seq<RotationStep>, b: Seq<RotationStep>)
    ensures
        apply_steps(present, a + b) == apply_steps(apply_steps(present, a), b),
    decreases a.len(),
{
    if a.len() > 0 {
        assert((a + b).drop_first() =~= a.drop_first() + b);
        lemma_apply_steps_concat(apply_step(present, a[0]), a.drop_first(), b);
    } else {
        assert(a + b =~= b);
    }
}

proof fn lemma_shift_general(present: Seq<bool>, exists: Seq<bool>, k: nat)
    requires
        present.len() == 10,
        exists.len() == 9,
        k <= 8,
        forall|j: int| 1 <= j <= k ==> present[j] == exists[j - 1],
        !present[(k + 1) as int],
    ensures
        ({
            let after = apply_steps(present, shift_steps(exists, k));
            &&& after.len() == 10
            &&& after[0] == present[0]
            &&& (k >= 1 ==> !after[1])
            &&& forall|j: int| 2 <= j <= k + 1 ==> after[j] == present[j - 1]
            &&& forall|j: int| k + 1 < j < 10 ==> after[j] == present[j]
        }),
    decreases k,
{
    if k > 0 {
        let rest = shift_steps(exists, (k - 1) as nat);
        let step = RotationStep::Rename(k, k + 1);
        let s1 = if exists[k - 1] {
            apply_step(present, step)
        } else {
            present
        };
        if exists[k - 1] {
            lemma_apply_steps_concat(present, seq![step], rest);
            assert(seq![step].drop_first() =~= Seq::<RotationStep>::empty());
            assert(seq![step][0] == step);
            assert(apply_steps(s1, Seq::<RotationStep>::empty()) == s1);
            assert(apply_steps(present, seq![step]) == s1);
            assert(shift_steps(exists, k) == seq![step] + rest);
        } else {
            assert(shift_steps(exists, k) == rest);
        }
        assert(apply_steps(present, shift_steps(exists, k)) == apply_steps(s1, rest));
        assert(!s1[k as int]);
        assert(s1[(k + 1) as int] == present[k as int]);
        assert forall|j: int| 1 <= j <= k - 1 implies s1[j] == exists[j - 1] by {}
        lemma_shift_general(s1, exists, (k - 1) as nat);
    }
}

/// Rotation moves every generation up by one: afterwards generation 1 holds
/// what the current log was, each generation `k + 1` what `k` was, the oldest
/// (9) is gone, and there is no current log.
pub proof fn lemma_rotation_shifts_generations(exists: Seq<bool>)
    requires
        exists.len() == 9,
    ensures
        ({
            let present = seq![true] + exists;
            let after = apply_steps(present, rotation_steps(true, exists));
            &&& after.len() == 10
            &&& !after[0]
            &&& after[1]
            &&& forall|k: int| 2 <= k <= 9 ==> after[k] == #[trigger] exists[k - 2]
        }),
{
    let present = seq![true] + exists;
    let first: Seq<RotationStep> = if exists[8] {
        seq![RotationStep::Remove(9)]
    } else {
        Seq::empty()
    };
    let s1 = apply_steps(present, first);
    assert(present.len() == 10);
    assert forall|j: int| 1 <= j <= 9 implies present[j] == exists[j - 1] by {}
    if exists[8] {
        assert(first.drop_first() =~= Seq::<RotationStep>::empty());
        assert(first[0] == RotationStep::Remove(9));
        assert(apply_steps(present.update(9, false), Seq::<RotationStep>::empty()) == present.update(9, false));
        assert(s1 == present.update(9, false));
    } else {
        assert(s1 == present);
    }
    assert(s1.len() == 10);
    assert(!s1[9]);
    assert forall|j: int| 1 <= j <= 8 implies s1[j] == exists[j - 1] by {}
    lemma_shift_general(s1, exists, 8);
    let s2 = apply_steps(s1, shift_steps(exists, 8));
    let last = seq![RotationStep::Rename(0, 1)];
    assert(last.drop_first() =~= Seq::<RotationStep>::empty());
    lemma_apply_steps_concat(present, first, shift_steps(exists, 8));
    lemma_apply_steps_concat(present, first + shift_steps(exists, 8), last);
    assert(last[0] == RotationStep::Rename(0, 1));
    let s3 = apply_step(s2, RotationStep::Rename(0, 1));
    assert(apply_steps(s3, Seq::<RotationStep>::empty()) == s3);
    assert(apply_steps(s2, last) == s3);
    assert(rotation_steps(true, exists) == first + shift_steps(exists, 8) + last);
    assert(s2[0] == present[0]);
    assert forall|k: int| 2 <= k <= 9 implies s3[k] == #[trigger] exists[k - 2] by {
        assert(s2[k] == s1[k - 1]);
        assert(s1[k - 1] == present[k - 1]);
    }
}

} // verus!
