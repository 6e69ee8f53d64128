use vstd::prelude::*;
use vstd::string::*;

use crate::config::{strings_view, XcrunConfiguration};
use crate::resolve::{opt_view, ResolvedTool};

verus! {

/// How to run a resolved tool: the executable, its arguments, and the
/// environment variables set for it on top of the caller's own.
#[derive(Debug, Clone, PartialEq, Eq)]
pub struct Invocation {
    pub program: String,
    pub arguments: Vec<String>,
    pub environment: Vec<(String, String)>,
}

/// `first`, followed by `:` and `rest` when there is a `rest`.
pub open spec fn prepend_entry(first: Seq<char>, rest: Option<Seq<char>>) -> Seq<char> {
    match rest {
        Some(v) => first + ":"@ + v,
        None => first,
    }
}

/// The variables set for a tool of the SDK at `sdk_path`, given the caller's
/// `PATH` and library search path, if set.
pub open spec fn spec_environment(
    sdk_path: Seq<char>,
    ambient_path: Option<Seq<char>>,
    ambient_library_path: Option<Seq<char>>,
) -> Seq<(Seq<char>, Seq<char>)> {
    seq![
        ("SDKROOT"@, sdk_path),
        ("PATH"@, prepend_entry(sdk_path, ambient_path)),
        ("LD_LIBRARY_PATH"@, prepend_entry(sdk_path + "/lib"@, ambient_library_path)),
    ]
}

/// The view of a list of variables.
pub open spec fn entries_view(v: Seq<(String, String)>) -> Seq<(Seq<char>, Seq<char>)> {
    v.map_values(|e: (String, String)| (e.0@, e.1@))
}

fn prepended(first: String, rest: &Option<String>) -> (r: String)
    ensures
        r@ == prepend_entry(first@, opt_view(*rest)),
{
    let mut r = first;
    match rest {
        Some(v) => {
            r.append(":");
            r.append(v.as_str());
        },
        None => {},
    }
    r
}

/// The variables set for a tool of the SDK at `sdk_path`: `SDKROOT` is the
/// SDK, `PATH` gains the SDK in front, and the library search path gains
/// the SDK's `lib` directory in front.
pub fn environment_for(sdk_path: &str, ambient_path: &Option<String>, ambient_library_path: &Option<String>) -> (r: Vec<(String, String)>)
    ensures
        entries_view(r@) == spec_environment(sdk_path@, opt_view(*ambient_path), opt_view(*ambient_library_path)),
{
    let search = prepended(String::from_str(sdk_path), ambient_path);
    let mut lib = String::from_str(sdk_path);
    lib.append("/lib");
    let library = prepended(lib, ambient_library_path);
    let mut r: Vec<(String, String)> = Vec::new();
    r.push((String::from_str("SDKROOT"), String::from_str(sdk_path)));
    r.push((String::from_str("PATH"), search));
    r.push((String::from_str("LD_LIBRARY_PATH"), library));
    assert(entries_view(r@) =~= spec_environment(sdk_path@, opt_view(*ambient_path), opt_view(*ambient_library_path)));
    r
}

/// `words` joined with `sep` between each two.
pub open spec fn join_words(words: Seq<Seq<char>>, sep: Seq<char>) -> Seq<char>
    decreases words.len(),
{
    if words.len() == 0 {
        Seq::empty()
    } else if words.len() == 1 {
        words[0]
    } else {
        join_words(words.drop_last(), sep) + sep + words.last()
    }
}

/// The line logged before a tool is run with `command` (the tool and its
/// arguments).
pub open spec fn spec_log_line(command: Seq<Seq<char>>) -> Seq<char> {
    "xcrun: info: invoking command: \n\t\""@ + join_words(command, " "@) + "\""@
}

/// The line logged before a tool is run with `command`.
pub fn log_line(command: &Vec<String>) -> (r: String)
    ensures
        r@ == spec_log_line(strings_view(command@)),
{
    let ghost words = strings_view(command@);
    let mut joined = String::new();
    let mut i: usize = 0;
    while i < command.len()
        invariant
            i <= command@.len(),
            words == strings_view(command@),
            joined@ == join_words(words.take(i as int), " "@),
        decreases command@.len() - i,
    {
        if i > 0 {
            joined.append(" ");
        }
        joined.append(command[i].as_str());
        proof {
            assert(words.take(i + 1).drop_last() =~= words.take(i as int));
            if i == 0 {
                assert(join_words(words.take(0), " "@) =~= Seq::<char>::empty());
            }
        }
        i = i + 1;
    }
    assert(words.take(command@.len() as int) =~= words);
    let mut r = String::from_str("xcrun: info: invoking command: \n\t\"");
    r.append(joined.as_str());
    r.append("\"");
    r
}

/// The exit status to leave with once the tool has ended: its exit code when
/// it exited normally; `128 + n` when it was ended by signal `n`; `1` when
/// neither is known.
pub fn exit_code(code: Option<i32>, signal: Option<i32>) -> (r: i32)
    ensures
        code is Some ==> r == code->Some_0,
        code is None && signal is Some && 0 < signal->Some_0 < 128 ==> r == 128 + signal->Some_0,
        code is None && !(signal is Some && 0 < signal->Some_0 < 128) ==> r == 1,
{
    match code {
        Some(c) => c,
        None => match signal {
            Some(s) => if 0 < s && s < 128 {
                128 + s
            } else {
                1
            },
            None => 1,
        },
    }
}

/// How to run the tool that `resolved` names, where `command` is the tool's
/// name followed by its arguments.
pub fn invocation_for(
    config: &XcrunConfiguration,
    resolved: &ResolvedTool,
    command: &Vec<String>,
    ambient_path: &Option<String>,
    ambient_library_path: &Option<String>,
) -> (r: Invocation)
    requires
        resolved.sdk_index < config.sdks@.len(),
        command@.len() >= 1,
    ensures
        r.program@ == resolved.executable_path@,
        strings_view(r.arguments@) == strings_view(command@).drop_first(),
        entries_view(r.environment@) == spec_environment(
            config.sdks@[resolved.sdk_index as int].path@,
            opt_view(*ambient_path),
            opt_view(*ambient_library_path),
        ),
{
    let mut arguments: Vec<String> = Vec::new();
    let mut i: usize = 1;
    while i < command.len()
        invariant
            1 <= i <= command@.len(),
            strings_view(arguments@) =~= strings_view(command@).subrange(1, i as int),
        decreases command@.len() - i,
    {
        let ghost before = arguments@;
        arguments.push(command[i].clone());
        assert(strings_view(arguments@) =~= strings_view(before).push(command@[i as int]@));
        i = i + 1;
    }
    let environment = environment_for(config.sdks[resolved.sdk_index].path.as_str(), ambient_path, ambient_library_path);
    Invocation { program: resolved.executable_path.clone(), arguments, environment }
}

} // verus!
