//! Decisions of a run: which tool and which properties a command line names,
//! how the measurements and statuses of several runs combine, and what a
//! testing framework's final status is reported as.

use vstd::prelude::*;
use vstd::string::StringExecFns;
use crate::text::{decimal, joined, same_text, strip_prefix, join, push_decimal};

verus! {

/// How many inputs a run tried and how long it took, in microseconds.
#[derive(Clone, Copy)]
pub struct Metrics {
    pub inputs: u64,
    pub elapsed_us: u128,
}

impl Default for Metrics {
    fn default() -> (m: Metrics)
        ensures
            m.inputs == 0,
            m.elapsed_us == 0,
    {
        Metrics { inputs: 0, elapsed_us: 0 }
    }
}

impl Metrics {
    /// The measurements of two runs together.
    pub fn combine(self, other: Metrics) -> (m: Metrics)
        requires
            self.inputs + other.inputs <= u64::MAX,
            self.elapsed_us + other.elapsed_us <= u128::MAX,
        ensures
            m.inputs == self.inputs + other.inputs,
            m.elapsed_us == self.elapsed_us + other.elapsed_us,
    {
        Metrics {
            inputs: self.inputs + other.inputs,
            elapsed_us: self.elapsed_us + other.elapsed_us,
        }
    }
}

/// A run's status (`Err` holds the counterexample or the reason it stopped)
/// and its measurements.
pub type Outcome = (Result<(), String>, Metrics);

/// The status that runs of several properties report together: that of the
/// first run that did not pass, or `Ok` when all passed.
pub open spec fn merged_status(acc: Result<(), String>, rest: Seq<Outcome>) -> Result<(), String>
    decreases rest.len(),
{
    if rest.len() == 0 {
        acc
    } else if acc is Err {
        merged_status(acc, rest.drop_first())
    } else {
        merged_status(rest[0].0, rest.drop_first())
    }
}

/// Adds the outcome `next` of one more property to `total`, the outcome of
/// the properties run so far: measurements add up, and the first status that
/// is not `Ok` is kept.
pub fn merge_outcome(total: Outcome, next: Outcome) -> (r: Outcome)
    requires
        total.1.inputs + next.1.inputs <= u64::MAX,
        total.1.elapsed_us + next.1.elapsed_us <= u128::MAX,
    ensures
        r.1.inputs == total.1.inputs + next.1.inputs,
        r.1.elapsed_us == total.1.elapsed_us + next.1.elapsed_us,
        r.0 == (if total.0 is Err { total.0 } else { next.0 }),
        r.0 == merged_status(total.0, seq![next]),
{
    proof {
        let one = seq![next];
        assert(one.drop_first() =~= Seq::<Outcome>::empty());
        reveal_with_fuel(merged_status, 2);
    }
    let (status, metrics) = total;
    let (next_status, next_metrics) = next;
    let m = metrics.combine(next_metrics);
    if status.is_err() {
        (status, m)
    } else {
        (next_status, m)
    }
}

/// The inputs that a sequence of runs tried in all.
pub open spec fn total_inputs(runs: Seq<Outcome>) -> nat
    decreases runs.len(),
{
    if runs.len() == 0 {
        0
    } else {
        runs[0].1.inputs as nat + total_inputs(runs.drop_first())
    }
}

/// The time that a sequence of runs took in all, in microseconds.
pub open spec fn total_elapsed(runs: Seq<Outcome>) -> nat
    decreases runs.len(),
{
    if runs.len() == 0 {
        0
    } else {
        runs[0].1.elapsed_us as nat + total_elapsed(runs.drop_first())
    }
}

/// The outcome of running several properties in order, from the outcome of
/// each: the measurements summed over all of them, and the status of the
/// first run that did not pass (`Ok` when all passed).
pub fn combine_outcomes(runs: Vec<Outcome>) -> (r: Outcome)
    requires
        total_inputs(runs@) <= u64::MAX,
        total_elapsed(runs@) <= u128::MAX,
    ensures
        r.0 == merged_status(Ok(()), runs@),
        r.1.inputs == total_inputs(runs@),
        r.1.elapsed_us == total_elapsed(runs@),
{
    let ghost all = runs@;
    let mut rest = runs;
    let mut total: Outcome = (Ok(()), Metrics { inputs: 0, elapsed_us: 0 });
    while rest.len() > 0
        invariant
            merged_status(total.0, rest@) == merged_status(Ok(()), all),
            total.1.inputs + total_inputs(rest@) == total_inputs(all),
            total.1.elapsed_us + total_elapsed(rest@) == total_elapsed(all),
            total_inputs(all) <= u64::MAX,
            total_elapsed(all) <= u128::MAX,
        decreases rest.len(),
    {
        let ghost before = rest@;
        let next = rest.remove(0);
        assert(rest@ =~= before.drop_first());
        total = merge_outcome(total, next);
    }
    total
}

/// Runs that start with every status `Ok` report the first status in the
/// sequence that is not `Ok`, whatever follows it; and `Ok` if there is none.
pub proof fn first_failure_wins(rest: Seq<Outcome>)
    ensures
        (forall|i: int| 0 <= i < rest.len() ==> (#[trigger] rest[i]).0 is Ok) ==> merged_status(
            Ok(()),
            rest,
        ) is Ok,
        forall|k: int|
            0 <= k < rest.len() && (#[trigger] rest[k]).0 is Err && (forall|i: int|
                0 <= i < k ==> (#[trigger] rest[i]).0 is Ok) ==> merged_status(Ok(()), rest)
                == rest[k].0,
    decreases rest.len(),
{
    if rest.len() > 0 {
        let tail = rest.drop_first();
        first_failure_wins(tail);
        failure_sticks(rest[0].0, tail);
        assert forall|k: int|
            0 <= k < rest.len() && (#[trigger] rest[k]).0 is Err && (forall|i: int|
                0 <= i < k ==> (#[trigger] rest[i]).0 is Ok) implies merged_status(Ok(()), rest)
            == rest[k].0 by {
            if k > 0 {
                assert(rest[0].0 is Ok);
                assert(tail[k - 1] == rest[k]);
                assert forall|i: int| 0 <= i < k - 1 implies (#[trigger] tail[i]).0 is Ok by {
                    assert(tail[i] == rest[i + 1]);
                }
            }
        }
        if forall|i: int| 0 <= i < rest.len() ==> (#[trigger] rest[i]).0 is Ok {
            assert forall|i: int| 0 <= i < tail.len() implies (#[trigger] tail[i]).0 is Ok by {
                assert(tail[i] == rest[i + 1]);
            }
        }
    }
}

/// Once a status is not `Ok`, merging keeps it.
proof fn failure_sticks(acc: Result<(), String>, rest: Seq<Outcome>)
    ensures
        acc is Err ==> merged_status(acc, rest) == acc,
    decreases rest.len(),
{
    if rest.len() > 0 {
        failure_sticks(acc, rest.drop_first());
    }
}

/// The testing tools a run can use.
#[derive(Clone, Copy, PartialEq, Eq, Structural, Debug)]
pub enum Tool {
    Etna,
    Proptest,
    Quickcheck,
    Crabcheck,
    Hegel,
}

/// The name of a tool on the command line.
pub open spec fn tool_name(t: Tool) -> Seq<char> {
    match t {
        Tool::Etna => "etna"@,
        Tool::Proptest => "proptest"@,
        Tool::Quickcheck => "quickcheck"@,
        Tool::Crabcheck => "crabcheck"@,
        Tool::Hegel => "hegel"@,
    }
}

/// The tool that `name` names, trying the names in the order the tools are
/// listed.
pub open spec fn tool_named(name: Seq<char>) -> Option<Tool> {
    if name == "etna"@ {
        Some(Tool::Etna)
    } else if name == "proptest"@ {
        Some(Tool::Proptest)
    } else if name == "quickcheck"@ {
        Some(Tool::Quickcheck)
    } else if name == "crabcheck"@ {
        Some(Tool::Crabcheck)
    } else if name == "hegel"@ {
        Some(Tool::Hegel)
    } else {
        None
    }
}

impl Tool {
    /// The name of the tool on the command line.
    pub fn name(&self) -> (r: &'static str)
        ensures
            r@ == tool_name(*self),
    {
        match self {
            Tool::Etna => "etna",
            Tool::Proptest => "proptest",
            Tool::Quickcheck => "quickcheck",
            Tool::Crabcheck => "crabcheck",
            Tool::Hegel => "hegel",
        }
    }
}

/// The tool that the command line names, or the error a run reports for an
/// unknown one.
pub fn select_tool(name: &str) -> (r: Result<Tool, String>)
    ensures
        match tool_named(name@) {
            Some(t) => r == Ok::<Tool, String>(t),
            None => r is Err && r->Err_0@ == "Unknown tool: "@ + name@,
        },
{
    if same_text(name, "etna") {
        Ok(Tool::Etna)
    } else if same_text(name, "proptest") {
        Ok(Tool::Proptest)
    } else if same_text(name, "quickcheck") {
        Ok(Tool::Quickcheck)
    } else if same_text(name, "crabcheck") {
        Ok(Tool::Crabcheck)
    } else if same_text(name, "hegel") {
        Ok(Tool::Hegel)
    } else {
        let mut msg = String::new();
        msg.append("Unknown tool: ");
        msg.append(name);
        Err(msg)
    }
}

/// The properties a run can check.
#[derive(Clone, Copy, PartialEq, Eq, Structural, Debug)]
pub enum Property {
    DecimalRoundtripF64,
}

/// Every property, in the order a run of all of them checks them.
pub open spec fn all_properties() -> Seq<Property> {
    seq![Property::DecimalRoundtripF64]
}

impl Property {
    /// Every property, in the order a run of all of them checks them.
    pub fn all() -> (r: Vec<Property>)
        ensures
            r@ == all_properties(),
    {
        let mut r = Vec::new();
        r.push(Property::DecimalRoundtripF64);
        assert(r@ =~= all_properties());
        r
    }
}

/// What a command line asks to check: every property, or one.
#[derive(Clone, Copy, PartialEq, Eq, Structural, Debug)]
pub enum Selection {
    All,
    One(Property),
}

/// The selection that `name` makes, if it names one.
pub open spec fn selection_named(name: Seq<char>) -> Option<Selection> {
    if name == "All"@ {
        Some(Selection::All)
    } else if name == "DecimalRoundtripF64"@ {
        Some(Selection::One(Property::DecimalRoundtripF64))
    } else {
        None
    }
}

/// What the command line asks `tool` to check, or the error a run reports
/// for an unknown property.
pub fn select_property(tool: Tool, name: &str) -> (r: Result<Selection, String>)
    ensures
        match selection_named(name@) {
            Some(s) => r == Ok::<Selection, String>(s),
            None => r is Err && r->Err_0@ == "Unknown property for "@ + tool_name(tool) + ": "@
                + name@,
        },
{
    if same_text(name, "All") {
        Ok(Selection::All)
    } else if same_text(name, "DecimalRoundtripF64") {
        Ok(Selection::One(Property::DecimalRoundtripF64))
    } else {
        let mut msg = String::new();
        msg.append("Unknown property for ");
        msg.append(tool.name());
        msg.append(": ");
        msg.append(name);
        Err(msg)
    }
}

/// How a testing framework ended a run.
pub enum RunStatus {
    /// Every test passed.
    Finished,
    /// A test failed; the rendered arguments it failed on.
    Failed { arguments: Vec<String> },
    /// The framework stopped on an error, rendered.
    Aborted { error: String },
    /// The run ran out of time.
    TimedOut,
    /// Too many inputs were discarded.
    GaveUp { passed: u64, discarded: u64 },
}

/// What a run reports for the framework's final status.
pub open spec fn status_report(s: RunStatus) -> Result<(), Seq<char>> {
    match s {
        RunStatus::Finished => Ok(()),
        RunStatus::Failed { arguments } => Err(
            "("@ + joined(arguments@.map_values(|a: String| a@), " "@) + ")"@,
        ),
        RunStatus::Aborted { error } => Err("aborted: "@ + error@),
        RunStatus::TimedOut => Err("timed out"@),
        RunStatus::GaveUp { passed, discarded } => Err(
            "gave up: passed="@ + decimal(passed as nat) + ", discarded="@ + decimal(
                discarded as nat,
            ),
        ),
    }
}

/// A failed run reports every argument it failed on: the arguments in
/// order, separated by spaces, between parentheses; so one argument `a` is
/// reported as "(a)" and none as "()".
pub proof fn failed_status_lists_arguments(arguments: Vec<String>)
    ensures
        status_report(RunStatus::Failed { arguments }) == Err::<(), Seq<char>>(
            "("@ + joined(arguments@.map_values(|a: String| a@), " "@) + ")"@,
        ),
        arguments.len() == 1 ==> status_report(RunStatus::Failed { arguments }) == Err::<
            (),
            Seq<char>,
        >("("@ + arguments@[0]@ + ")"@),
        arguments.len() == 0 ==> status_report(RunStatus::Failed { arguments }) == Err::<
            (),
            Seq<char>,
        >("("@ + ")"@),
{
    let views = arguments@.map_values(|a: String| a@);
    crate::text::joined_pieces(Seq::empty(), Seq::empty(), " "@);
    if arguments.len() == 1 {
        crate::text::joined_pieces(Seq::empty(), arguments@[0]@, " "@);
        assert(views =~= seq![arguments@[0]@]);
    }
    if arguments.len() == 0 {
        assert(views =~= Seq::<Seq<char>>::empty());
        assert("("@ + Seq::<char>::empty() + ")"@ =~= "("@ + ")"@);
    }
}

/// The status a run reports when the framework ended as `s`.
pub fn status_message(s: RunStatus) -> (r: Result<(), String>)
    ensures
        match status_report(s) {
            Ok(()) => r is Ok,
            Err(m) => r is Err && r->Err_0@ == m,
        },
{
    match s {
        RunStatus::Finished => Ok(()),
        RunStatus::Failed { arguments } => {
            let mut m = String::new();
            m.append("(");
            let inner = join(&arguments, " ");
            m.append(inner.as_str());
            m.append(")");
            Err(m)
        },
        RunStatus::Aborted { error } => {
            let mut m = String::new();
            m.append("aborted: ");
            m.append(error.as_str());
            Err(m)
        },
        RunStatus::TimedOut => {
            let mut m = String::new();
            m.append("timed out");
            Err(m)
        },
        RunStatus::GaveUp { passed, discarded } => {
            let mut m = String::new();
            m.append("gave up: passed=");
            push_decimal(&mut m, passed as u128);
            m.append(", discarded=");
            push_decimal(&mut m, discarded as u128);
            Err(m)
        },
    }
}

/// What a run under the hegel framework reports: `Ok` when the framework
/// returned, and otherwise the message it stopped with, less the framework's
/// "Property test failed: " lead-in where it has one.
pub fn hegel_status(panic_message: Option<&str>) -> (r: Result<(), String>)
    ensures
        match panic_message {
            None => r is Ok,
            Some(m) => r is Err && (if "Property test failed: "@.is_prefix_of(m@) {
                m@ == "Property test failed: "@ + r->Err_0@
            } else {
                r->Err_0@ == m@
            }),
        },
{
    match panic_message {
        None => Ok(()),
        Some(m) => {
            let mut out = String::new();
            match strip_prefix(m, "Property test failed: ") {
                Some(rest) => {
                    out.append(rest);
                    proof {
                        let p = "Property test failed: "@;
                        assert(m@.subrange(0, p.len() as int) =~= p);
                        assert(p.is_prefix_of(m@));
                    }
                },
                None => {
                    out.append(m);
                },
            }
            Err(out)
        },
    }
}

} // verus!
