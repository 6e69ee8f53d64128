use vstd::prelude::*;
use vstd::string::*;

use crate::config::{spec_field_lines, strings_view, Sdk, SdkField, XcrunConfiguration};
use crate::invoke::{entries_view, invocation_for, log_line, spec_environment, spec_log_line, Invocation};
use crate::resolve::{
    not_found_message, opt_view, resolution_ok, resolve, resolved_view, spec_not_found_message,
    Resolution, ResolveError, ResolvedTool,
};

verus! {

/// The options of one run: `xcrun <options> <tool> <tool arguments>`.
#[derive(Debug, Clone, PartialEq, Eq)]
pub struct Xcrun {
    pub version: bool,
    pub verbose: bool,
    /// Selects the SDK by name instead of by where the tool is.
    pub sdk: Option<String>,
    /// Accepted, without effect.
    pub toolchain: Option<String>,
    /// Logs the command before running it.
    pub log: bool,
    /// Reports where a tool is, without running it.
    pub find: Option<String>,
    /// Accepted, without effect.
    pub no_cache: bool,
    /// Accepted, without effect.
    pub kill_cache: bool,
    pub show_sdk_path: bool,
    pub show_sdk_version: bool,
    pub show_sdk_target_triple: bool,
    pub show_sdk_toolchain_path: bool,
    pub show_sdk_toolchain_version: bool,
    /// Accepted, without effect.
    pub run: Option<String>,
    /// The tool to run, followed by its arguments.
    pub arguments: Vec<String>,
}

/// How a run ends.
#[derive(Debug, Clone, PartialEq, Eq)]
pub enum Outcome {
    /// Nothing more to do: the run succeeds.
    Completed,
    /// The run fails with this diagnostic.
    Failed(String),
    /// The run hands over to this tool and ends with its exit status.
    Execute(Invocation),
}

/// What a run prints to standard output, in order, and how it ends.
#[derive(Debug, PartialEq, Eq)]
pub struct Plan {
    pub output: Vec<String>,
    pub outcome: Outcome,
    /// The resolution made for the `find` query, when one was made here.
    pub query: Option<Resolution>,
    /// The resolution made for the tool to run, when one was made here.
    pub execution: Option<Resolution>,
}

/// `lines` when `on`, nothing otherwise.
pub open spec fn lines_if(on: bool, lines: Seq<Seq<char>>) -> Seq<Seq<char>> {
    if on {
        lines
    } else {
        Seq::empty()
    }
}

/// The version line and the whole-store reports that the options ask for.
pub open spec fn spec_report(x: Xcrun, sdks: Seq<Sdk>) -> Seq<Seq<char>> {
    lines_if(x.version, seq!["xcrun 1.0.0"@])
        + lines_if(x.show_sdk_path, spec_field_lines(sdks, SdkField::Path))
        + lines_if(x.show_sdk_version, spec_field_lines(sdks, SdkField::Version))
        + lines_if(x.show_sdk_target_triple, spec_field_lines(sdks, SdkField::TargetTriple))
        + lines_if(x.show_sdk_toolchain_path, spec_field_lines(sdks, SdkField::Path))
        + lines_if(x.show_sdk_toolchain_version, spec_field_lines(sdks, SdkField::Version))
}

/// The view of a resolution that may not have been made.
pub open spec fn attempt_view(r: Option<Result<ResolvedTool, ResolveError>>) -> Option<Result<(int, Seq<char>), ResolveError>> {
    match r {
        Some(v) => Some(resolved_view(v)),
        None => None,
    }
}

/// Whether `r` is a failed resolution.
pub open spec fn is_failure(r: Option<Result<(int, Seq<char>), ResolveError>>) -> bool {
    r is Some && r->Some_0 is Err
}

/// What a run prints, given the outcome of the `find` query and of the
/// resolution of the tool to run.
pub open spec fn spec_plan_output(
    x: Xcrun,
    sdks: Seq<Sdk>,
    found: Option<Result<(int, Seq<char>), ResolveError>>,
    executed: Option<Result<(int, Seq<char>), ResolveError>>,
) -> Seq<Seq<char>> {
    let report = spec_report(x, sdks);
    if is_failure(found) {
        report
    } else {
        let with_found = match found {
            Some(Ok((_, p))) => report.push(p),
            _ => report,
        };
        match executed {
            Some(Ok(_)) => if x.log {
                with_found.push(spec_log_line(strings_view(x.arguments@)))
            } else {
                with_found
            },
            _ => with_found,
        }
    }
}

/// Each whole-store report prints exactly one line per configured SDK, in
/// store order, and no report depends on the SDK name hint.
pub proof fn lemma_report_per_sdk(x: Xcrun, sdks: Seq<Sdk>, field: SdkField, hint: Option<String>)
    ensures
        spec_field_lines(sdks, field).len() == sdks.len(),
        forall|i: int| 0 <= i < sdks.len() ==> #[trigger] spec_field_lines(sdks, field)[i] == crate::config::field_value(sdks[i], field),
        spec_report(Xcrun { sdk: hint, ..x }, sdks) == spec_report(x, sdks),
{
}

/// How a run ends, given the outcome of the `find` query and of the
/// resolution of the tool to run: a failed query fails the run; then a
/// failed resolution of the tool fails it; a resolved tool is run from its
/// SDK with the remaining arguments; with no tool the run completes.
pub open spec fn spec_outcome_ok(
    x: Xcrun,
    sdks: Seq<Sdk>,
    found: Option<Result<(int, Seq<char>), ResolveError>>,
    executed: Option<Result<(int, Seq<char>), ResolveError>>,
    ambient_path: Option<Seq<char>>,
    ambient_library_path: Option<Seq<char>>,
    o: Outcome,
) -> bool {
    if is_failure(found) {
        o is Failed && o->Failed_0@ == spec_not_found_message(x.find->Some_0@)
    } else {
        match executed {
            Some(Err(_)) => o is Failed && o->Failed_0@ == spec_not_found_message(x.arguments@[0]@),
            Some(Ok((i, p))) => {
                &&& o is Execute
                &&& o->Execute_0.program@ == p
                &&& strings_view(o->Execute_0.arguments@) == strings_view(x.arguments@).drop_first()
                &&& entries_view(o->Execute_0.environment@) == spec_environment(sdks[i].path@, ambient_path, ambient_library_path)
            },
            None => o is Completed,
        }
    }
}

/// The view of a resolution that may not have been made.
pub open spec fn resolution_view(q: Option<Resolution>) -> Option<Result<(int, Seq<char>), ResolveError>> {
    match q {
        Some(r) => Some(resolved_view(r.result)),
        None => None,
    }
}

fn result_of(q: &Option<Resolution>) -> (r: Option<Result<ResolvedTool, ResolveError>>)
    ensures
        attempt_view(r) == resolution_view(*q),
        r is Some && r->Some_0 is Ok ==> r->Some_0->Ok_0.sdk_index == q->Some_0.result->Ok_0.sdk_index,
{
    match q {
        Some(res) => match &res.result {
            Ok(t) => Some(Ok(ResolvedTool { sdk_index: t.sdk_index, executable_path: t.executable_path.clone() })),
            Err(e) => Some(Err(*e)),
        },
        None => None,
    }
}

fn append_lines(out: &mut Vec<String>, lines: Vec<String>)
    ensures
        strings_view(final(out)@) == strings_view(old(out)@) + strings_view(lines@),
{
    let ghost start = old(out)@;
    let mut i: usize = 0;
    while i < lines.len()
        invariant
            i <= lines@.len(),
            strings_view(out@) =~= strings_view(start) + strings_view(lines@).take(i as int),
        decreases lines@.len() - i,
    {
        let ghost before = out@;
        out.push(lines[i].clone());
        assert(strings_view(out@) =~= strings_view(before).push(lines@[i as int]@));
        assert(strings_view(lines@).take(i + 1) =~= strings_view(lines@).take(i as int).push(lines@[i as int]@));
        i = i + 1;
    }
    assert(strings_view(lines@).take(lines@.len() as int) =~= strings_view(lines@));
}

impl Xcrun {
    /// The version line, if asked for, then each whole-store report asked
    /// for: every SDK's field, one line per SDK, in store order.
    pub fn report_lines(&self, config: &XcrunConfiguration) -> (r: Vec<String>)
        ensures
            strings_view(r@) == spec_report(*self, config.sdks@),
    {
        let mut r: Vec<String> = Vec::new();
        assert(strings_view(r@) =~= Seq::<Seq<char>>::empty());
        if self.version {
            let mut one: Vec<String> = Vec::new();
            one.push(String::from_str("xcrun 1.0.0"));
            assert(strings_view(one@) =~= seq!["xcrun 1.0.0"@]);
            append_lines(&mut r, one);
        }
        assert(strings_view(r@) =~= lines_if(self.version, seq!["xcrun 1.0.0"@]));
        if self.show_sdk_path {
            append_lines(&mut r, config.field_lines(SdkField::Path));
        }
        if self.show_sdk_version {
            append_lines(&mut r, config.field_lines(SdkField::Version));
        }
        if self.show_sdk_target_triple {
            append_lines(&mut r, config.field_lines(SdkField::TargetTriple));
        }
        if self.show_sdk_toolchain_path {
            append_lines(&mut r, config.field_lines(SdkField::Path));
        }
        if self.show_sdk_toolchain_version {
            append_lines(&mut r, config.field_lines(SdkField::Version));
        }
        assert(strings_view(r@) =~= spec_report(*self, config.sdks@));
        r
    }

    /// Decides what a run prints and how it ends, given the outcome of the
    /// `find` query (present exactly when one was asked for) and of the
    /// resolution of the tool to run (present exactly when a tool was named
    /// and the query, if any, succeeded). A failed query ends the run before
    /// anything is run.
    pub fn plan_with(
        &self,
        config: &XcrunConfiguration,
        found: &Option<Result<ResolvedTool, ResolveError>>,
        executed: &Option<Result<ResolvedTool, ResolveError>>,
        ambient_path: &Option<String>,
        ambient_library_path: &Option<String>,
    ) -> (r: Plan)
        requires
            (self.find is Some) == (found is Some),
            (self.arguments@.len() > 0 && !is_failure(attempt_view(*found))) == (executed is Some),
            found is Some && found->Some_0 is Ok ==> found->Some_0->Ok_0.sdk_index < config.sdks@.len(),
            executed is Some && executed->Some_0 is Ok ==> executed->Some_0->Ok_0.sdk_index < config.sdks@.len(),
        ensures
            strings_view(r.output@) == spec_plan_output(*self, config.sdks@, attempt_view(*found), attempt_view(*executed)),
            spec_outcome_ok(
                *self,
                config.sdks@,
                attempt_view(*found),
                attempt_view(*executed),
                opt_view(*ambient_path),
                opt_view(*ambient_library_path),
                r.outcome,
            ),
            r.query is None && r.execution is None,
    {
        let mut output = self.report_lines(config);
        match found {
            Some(Err(_)) => {
                let tool = match &self.find {
                    Some(t) => t.as_str(),
                    None => "",
                };
                return Plan { output, outcome: Outcome::Failed(not_found_message(tool)), query: None, execution: None };
            },
            Some(Ok(t)) => {
                output.push(t.executable_path.clone());
            },
            None => {},
        }
        let ghost with_found = strings_view(output@);
        match executed {
            Some(Err(_)) => {
                let outcome = Outcome::Failed(not_found_message(self.arguments[0].as_str()));
                Plan { output, outcome, query: None, execution: None }
            },
            Some(Ok(t)) => {
                if self.log {
                    output.push(log_line(&self.arguments));
                    assert(strings_view(output@) =~= with_found.push(spec_log_line(strings_view(self.arguments@))));
                }
                let invocation = invocation_for(config, t, &self.arguments, ambient_path, ambient_library_path);
                Plan { output, outcome: Outcome::Execute(invocation), query: None, execution: None }
            },
            None => Plan { output, outcome: Outcome::Completed, query: None, execution: None },
        }
    }

    /// Decides what a run prints and how it ends, resolving tools on disk:
    /// first the reports asked for, then the `find` query, then the tool to
    /// run, which is resolved only when one was named and the query, if any,
    /// succeeded. The resolutions made are kept in the plan.
    pub fn plan(
        &self,
        config: &XcrunConfiguration,
        ambient_path: &Option<String>,
        ambient_library_path: &Option<String>,
    ) -> (r: Plan)
        ensures
            (self.find is Some) == (r.query is Some),
            r.query is Some ==> resolution_ok(r.query->Some_0, config.sdks@, opt_view(self.sdk), self.find->Some_0@),
            (self.arguments@.len() > 0 && !is_failure(resolution_view(r.query))) == (r.execution is Some),
            r.execution is Some ==> resolution_ok(
                r.execution->Some_0,
                config.sdks@,
                opt_view(self.sdk),
                self.arguments@[0]@,
            ),
            strings_view(r.output@) == spec_plan_output(
                *self,
                config.sdks@,
                resolution_view(r.query),
                resolution_view(r.execution),
            ),
            spec_outcome_ok(
                *self,
                config.sdks@,
                resolution_view(r.query),
                resolution_view(r.execution),
                opt_view(*ambient_path),
                opt_view(*ambient_library_path),
                r.outcome,
            ),
    {
        let query = match &self.find {
            Some(tool) => Some(resolve(config, &self.sdk, tool.as_str())),
            None => None,
        };
        let query_failed = match &query {
            Some(q) => q.result.is_err(),
            None => false,
        };
        let execution = if self.arguments.len() > 0 && !query_failed {
            Some(resolve(config, &self.sdk, self.arguments[0].as_str()))
        } else {
            None
        };
        let found = result_of(&query);
        let executed = result_of(&execution);
        let decided = self.plan_with(config, &found, &executed, ambient_path, ambient_library_path);
        Plan { output: decided.output, outcome: decided.outcome, query, execution }
    }
}

} // verus!