//! The sandbox-execution orchestrator.
//!
//! A run takes an ordered list of bind mounts, checks every source on
//! the host before any mount is applied, reduces the list to the
//! mounts that actually take effect (a later mount at a destination
//! fully replaces an earlier one), and carries the trace flag and the
//! target invocation through to the launcher.  When any source is
//! missing, planning fails and no target process is ever started.

use vstd::prelude::*;

use crate::errors::ErrorKind;
use crate::mount_spec::{md_view, MountDescriptor};

verus! {

/// One `run` invocation: the ordered mounts, whether to trace system
/// calls, and the target command with its arguments.
#[derive(Debug)]
pub struct SandboxSession {
    /// The mounts, in declaration order.
    pub mounts: Vec<MountDescriptor>,
    /// Whether a syscall observer is attached to the child.
    pub trace_enabled: bool,
    /// The target command.
    pub command: String,
    /// The target's arguments.
    pub args: Vec<String>,
}

/// How a sandboxed child terminated: with an exit code, or killed by a
/// signal.
#[derive(Clone, Copy, Debug, PartialEq, Eq, Structural)]
pub enum ExitOutcome {
    /// The child exited with this code.
    Code(i32),
    /// The child was terminated by this signal.
    Signal(i32),
}

/// The mounts that are visible once every mount of `s` has been
/// applied in order: a mount survives exactly when no later mount
/// names the same destination.
pub open spec fn spec_effective(s: Seq<(Seq<char>, Seq<char>)>) -> Seq<(Seq<char>, Seq<char>)>
    decreases s.len(),
{
    if s.len() == 0 {
        Seq::<(Seq<char>, Seq<char>)>::empty()
    } else if exists|j: int| 1 <= j < s.len() && (#[trigger] s[j]).1 == s[0].1 {
        spec_effective(s.drop_first())
    } else {
        seq![s[0]] + spec_effective(s.drop_first())
    }
}

/// Every effective mount is one of the declared mounts.
pub proof fn lemma_effective_subset(s: Seq<(Seq<char>, Seq<char>)>)
    ensures
        forall|x: (Seq<char>, Seq<char>)|
            spec_effective(s).contains(x) ==> exists|i: int| 0 <= i < s.len() && s[i] == x,
    decreases s.len(),
{
    if s.len() > 0 {
        lemma_effective_subset(s.drop_first());
        assert forall|x: (Seq<char>, Seq<char>)| spec_effective(s).contains(x) implies exists|
            i: int,
        | 0 <= i < s.len() && s[i] == x by {
            if spec_effective(s.drop_first()).contains(x) {
                let i = choose|i: int| 0 <= i < s.drop_first().len() && s.drop_first()[i] == x;
                assert(s[i + 1] == x);
            } else {
                assert(x == s[0]);
            }
        }
    }
}

/// Last-applied wins: the last mount that names a destination is
/// visible at it, and nothing else is visible there.
pub proof fn lemma_last_wins(s: Seq<(Seq<char>, Seq<char>)>, i: int)
    requires
        0 <= i < s.len(),
        forall|j: int| i < j < s.len() ==> (#[trigger] s[j]).1 != s[i].1,
    ensures
        spec_effective(s).contains(s[i]),
        forall|x: (Seq<char>, Seq<char>)|
            spec_effective(s).contains(x) && x.1 == s[i].1 ==> x == s[i],
    decreases s.len(),
{
    let d = s.drop_first();
    if i == 0 {
        assert(forall|j: int| 1 <= j < s.len() ==> (#[trigger] s[j]).1 != s[0].1);
        assert(spec_effective(s) == seq![s[0]] + spec_effective(d));
        assert((seq![s[0]] + spec_effective(d))[0] == s[0]);
        lemma_effective_subset(d);
        assert forall|x: (Seq<char>, Seq<char>)|
            spec_effective(s).contains(x) && x.1 == s[i].1 implies x == s[i] by {
            if x != s[0] {
                let k = choose|k: int|
                    0 <= k < spec_effective(s).len() && spec_effective(s)[k] == x;
                assert(spec_effective(d).contains(x));
                let m = choose|m: int| 0 <= m < d.len() && d[m] == x;
                assert(s[m + 1] == x);
            }
        }
    } else {
        assert(forall|j: int| i - 1 < j < d.len() ==> (#[trigger] d[j]).1 != d[i - 1].1);
        assert(d[i - 1] == s[i]);
        lemma_last_wins(d, i - 1);
        if exists|j: int| 1 <= j < s.len() && (#[trigger] s[j]).1 == s[0].1 {
            assert(spec_effective(s) == spec_effective(d));
        } else {
            assert(spec_effective(s) == seq![s[0]] + spec_effective(d));
            assert(spec_effective(d).contains(s[i]));
            let k = choose|k: int| 0 <= k < spec_effective(d).len() && spec_effective(d)[k] == s[i];
            assert((seq![s[0]] + spec_effective(d))[k + 1] == s[i]);
            assert forall|x: (Seq<char>, Seq<char>)|
                spec_effective(s).contains(x) && x.1 == s[i].1 implies x == s[i] by {
                let k2 = choose|k2: int|
                    0 <= k2 < spec_effective(s).len() && spec_effective(s)[k2] == x;
                if k2 == 0 {
                    assert(x == s[0]);
                    assert(s[i].1 != s[0].1);
                } else {
                    assert(spec_effective(d)[k2 - 1] == x);
                    assert(spec_effective(d).contains(x));
                }
            }
        }
    }
}

/// Copies a descriptor field by field.
fn duplicate(m: &MountDescriptor) -> (r: MountDescriptor)
    ensures
        r.kind == m.kind,
        md_view(r) == md_view(*m),
{
    MountDescriptor { kind: m.kind, source: m.source.clone(), destination: m.destination.clone() }
}

/// The mounts that remain visible after applying `mounts` in order:
/// each destination keeps only the last mount that names it, in the
/// order the surviving mounts were declared.
pub fn effective_mounts(mounts: &Vec<MountDescriptor>) -> (r: Vec<MountDescriptor>)
    ensures
        r@.map_values(|m: MountDescriptor| md_view(m)) == spec_effective(
            mounts@.map_values(|m: MountDescriptor| md_view(m)),
        ),
        forall|k: int|
            0 <= k < r@.len() ==> exists|i: int|
                0 <= i < mounts@.len() && (#[trigger] r@[k]).kind == mounts@[i].kind && md_view(
                    r@[k],
                ) == md_view(mounts@[i]),
{
    let ghost all = mounts@.map_values(|m: MountDescriptor| md_view(m));
    let mut out: Vec<MountDescriptor> = Vec::new();
    let n = mounts.len();
    let mut i: usize = 0;
    proof {
        assert(all.subrange(0, n as int) =~= all);
        assert(out@.map_values(|m: MountDescriptor| md_view(m)) + spec_effective(all) =~~= spec_effective(all));
    }
    while i < n
        invariant
            0 <= i <= n,
            n == mounts@.len(),
            all == mounts@.map_values(|m: MountDescriptor| md_view(m)),
            spec_effective(all) =~~= out@.map_values(|m: MountDescriptor| md_view(m))
                + spec_effective(all.subrange(i as int, n as int)),
            forall|k: int|
                0 <= k < out@.len() ==> exists|q: int|
                    0 <= q < mounts@.len() && (#[trigger] out@[k]).kind == mounts@[q].kind
                        && md_view(out@[k]) == md_view(mounts@[q]),
        decreases n - i,
    {
        let ghost tail = all.subrange(i as int, n as int);
        let ghost prefix = out@.map_values(|m: MountDescriptor| md_view(m));
        proof {
            assert(tail.len() > 0);
            assert(tail[0] == all[i as int]);
            assert(tail[0] == md_view(mounts@[i as int]));
            assert(tail.drop_first() =~= all.subrange(i as int + 1, n as int));
        }
        let mut shadowed: bool = false;
        let mut j: usize = i + 1;
        while j < n
            invariant
                i < j <= n,
                n == mounts@.len(),
                all == mounts@.map_values(|m: MountDescriptor| md_view(m)),
                !shadowed ==> forall|q: int|
                    i < q < j ==> (#[trigger] all[q]).1 != all[i as int].1,
                shadowed ==> exists|q: int|
                    i < q < n && (#[trigger] all[q]).1 == all[i as int].1,
            decreases n - j,
        {
            if mounts[j].destination.eq(&mounts[i].destination) {
                proof {
                    assert(all[j as int].1 == all[i as int].1);
                }
                shadowed = true;
            }
            j = j + 1;
        }
        if shadowed {
            proof {
                let q = choose|q: int| i < q < n && (#[trigger] all[q]).1 == all[i as int].1;
                assert(tail[q - i].1 == tail[0].1);
                assert(exists|w: int| 1 <= w < tail.len() && (#[trigger] tail[w]).1 == tail[0].1);
                assert(spec_effective(tail) == spec_effective(tail.drop_first()));
            }
        } else {
            proof {
                assert forall|w: int| 1 <= w < tail.len() implies (#[trigger] tail[w]).1
                    != tail[0].1 by {
                    assert(tail[w] == all[i + w]);
                }
                assert(spec_effective(tail) == seq![tail[0]] + spec_effective(tail.drop_first()));
                assert(prefix + (seq![tail[0]] + spec_effective(tail.drop_first())) =~~= prefix.push(
                    tail[0],
                ) + spec_effective(tail.drop_first()));
            }
            let kept = duplicate(&mounts[i]);
            out.push(kept);
            proof {
                assert(out@.map_values(|m: MountDescriptor| md_view(m)) =~= prefix.push(tail[0]));
            }
        }
        i = i + 1;
    }
    proof {
        assert(all.subrange(n as int, n as int) =~= Seq::<(Seq<char>, Seq<char>)>::empty());
        assert(out@.map_values(|m: MountDescriptor| md_view(m)) + Seq::<
            (Seq<char>, Seq<char>),
        >::empty() =~= out@.map_values(|m: MountDescriptor| md_view(m)));
    }
    out
}

/// What the launcher is handed for a validated run: the mounts that
/// take effect, in order, and the traced invocation.
#[derive(Debug)]
pub struct RunPlan {
    /// The surviving mounts, one per destination.
    pub mounts: Vec<MountDescriptor>,
    /// Whether a syscall observer is attached.
    pub trace_enabled: bool,
    /// The target command.
    pub command: String,
    /// The target's arguments.
    pub args: Vec<String>,
}

/// Plans a sandboxed run.  `source_exists` reports, mount by mount,
/// whether the source path exists on the host.  Every source is
/// checked before any mount would be applied: when one is missing the
/// whole run fails and no plan — hence no child process — comes out.
pub fn plan_run(session: SandboxSession, source_exists: &Vec<bool>) -> (r: Result<
    RunPlan,
    ErrorKind,
>)
    requires
        source_exists@.len() == session.mounts@.len(),
    ensures
        (exists|i: int| 0 <= i < source_exists@.len() && !(#[trigger] source_exists@[i])) <==> r
            == Err::<RunPlan, ErrorKind>(ErrorKind::MountSourceNotFound),
        (forall|i: int| 0 <= i < source_exists@.len() ==> #[trigger] source_exists@[i]) ==> (
        r matches Ok(p) && p.mounts@.map_values(|m: MountDescriptor| md_view(m))
            == spec_effective(session.mounts@.map_values(|m: MountDescriptor| md_view(m)))
            && p.trace_enabled == session.trace_enabled && p.command@ == session.command@
            && p.args@ == session.args@),
{
    let n = source_exists.len();
    let mut i: usize = 0;
    while i < n
        invariant
            0 <= i <= n,
            n == source_exists@.len(),
            forall|k: int| 0 <= k < i ==> #[trigger] source_exists@[k],
        decreases n - i,
    {
        if !source_exists[i] {
            return Err(ErrorKind::MountSourceNotFound);
        }
        i = i + 1;
    }
    let effective = effective_mounts(&session.mounts);
    Ok(
        RunPlan {
            mounts: effective,
            trace_enabled: session.trace_enabled,
            command: session.command,
            args: session.args,
        },
    )
}

/// Translates how a child terminated, as reported by the host, into
/// an outcome: an exit code when there is one, else the terminating
/// signal.
pub fn exit_outcome(code: Option<i32>, signal: Option<i32>) -> (r: ExitOutcome)
    requires
        code is Some || signal is Some,
    ensures
        code matches Some(c) ==> r == ExitOutcome::Code(c),
        (code is None && signal is Some) ==> r == ExitOutcome::Signal(signal->0),
{
    match code {
        Some(c) => ExitOutcome::Code(c),
        None => match signal {
            Some(g) => ExitOutcome::Signal(g),
            None => ExitOutcome::Code(0),
        },
    }
}

/// The process exit code an outcome propagates: the child's own code,
/// or the shell convention of 128 plus the signal number (clamped to
/// the valid code range) for a signal death.
pub open spec fn spec_propagate(o: ExitOutcome) -> int {
    match o {
        ExitOutcome::Code(c) => c as int,
        ExitOutcome::Signal(g) => if 0 <= g <= 127 {
            128 + g
        } else {
            255
        },
    }
}

/// Exit code with which the orchestrator itself terminates after the
/// child is reaped.
pub fn propagate_outcome(o: ExitOutcome) -> (r: i32)
    ensures
        r == spec_propagate(o),
{
    match o {
        ExitOutcome::Code(c) => c,
        ExitOutcome::Signal(g) => if 0 <= g && g <= 127 {
            128 + g
        } else {
            255
        },
    }
}

/// One line of syscall-trace output: the call's name, its decoded
/// arguments in parentheses, and its return value.  The observer
/// writes such lines to the diagnostic stream, apart from the child's
/// own output.
pub fn trace_line(name: &str, call_args: &str, retval: &str) -> (r: String)
    ensures
        r@ == name@ + "("@ + call_args@ + ") = "@ + retval@,
{
    String::from_str(name).concat("(").concat(call_args).concat(") = ").concat(retval)
}

} // verus!
