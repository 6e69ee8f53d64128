use vstd::prelude::*;
use vstd::string::*;

use crate::config::{Sdk, XcrunConfiguration};
use crate::paths::{bin_candidate, spec_bin_candidate, spec_usr_bin_candidate, usr_bin_candidate, Probe};

verus! {

/// Why a tool could not be resolved.
#[derive(Debug, Clone, Copy, PartialEq, Eq, Structural)]
pub enum ResolveError {
    /// No SDK matched the requested name, or none holds the tool.
    SdkSelectionFailed,
    /// An SDK was selected but the tool is at neither conventional location in it.
    ToolNotFound,
}

/// A tool found inside a configured SDK.
#[derive(Debug, Clone, PartialEq, Eq)]
pub struct ResolvedTool {
    /// Index of the selected SDK in the configuration.
    pub sdk_index: usize,
    /// Where the tool's executable is.
    pub executable_path: String,
}

/// The index of the first `true` in `flags`, if any.
pub open spec fn first_true(flags: Seq<bool>) -> Option<int>
    decreases flags.len(),
{
    if flags.len() == 0 {
        None
    } else {
        match first_true(flags.drop_last()) {
            Some(i) => Some(i),
            None => if flags.last() {
                Some(flags.len() - 1)
            } else {
                None
            },
        }
    }
}

/// For each SDK, whether it is named `name`.
pub open spec fn name_flags(sdks: Seq<Sdk>, name: Seq<char>) -> Seq<bool> {
    Seq::new(sdks.len(), |i: int| sdks[i].name@ == name)
}

/// The SDK that selection picks. With a name hint, the first SDK of that name;
/// otherwise the first SDK that holds the tool, where `present[i]` tells
/// whether SDK `i` holds it.
pub open spec fn spec_select(sdks: Seq<Sdk>, hint: Option<Seq<char>>, present: Seq<bool>) -> Option<int> {
    match hint {
        Some(name) => first_true(name_flags(sdks, name)),
        None => first_true(present),
    }
}

/// Where a tool is inside an SDK at `sdk_path`, given whether it is present
/// at `bin/<tool>` and at `usr/bin/<tool>`: the first of the two that holds it.
pub open spec fn spec_locate(sdk_path: Seq<char>, tool: Seq<char>, in_bin: bool, in_usr_bin: bool) -> Option<Seq<char>> {
    if in_bin {
        Some(spec_bin_candidate(sdk_path, tool))
    } else if in_usr_bin {
        Some(spec_usr_bin_candidate(sdk_path, tool))
    } else {
        None
    }
}

/// The view of an optional string.
pub open spec fn opt_view(s: Option<String>) -> Option<Seq<char>> {
    match s {
        Some(v) => Some(v@),
        None => None,
    }
}

/// The view of a resolution result.
pub open spec fn resolved_view(r: Result<ResolvedTool, ResolveError>) -> Result<(int, Seq<char>), ResolveError> {
    match r {
        Ok(t) => Ok((t.sdk_index as int, t.executable_path@)),
        Err(e) => Err(e),
    }
}

/// `first_true` is the index of a `true` with no `true` before it.
pub proof fn lemma_first_true(flags: Seq<bool>)
    ensures
        match first_true(flags) {
            Some(i) => 0 <= i < flags.len() && flags[i] && forall|j: int| 0 <= j < i ==> !flags[j],
            None => forall|j: int| 0 <= j < flags.len() ==> !flags[j],
        },
    decreases flags.len(),
{
    if flags.len() > 0 {
        lemma_first_true(flags.drop_last());
        assert(forall|j: int| 0 <= j < flags.len() - 1 ==> flags.drop_last()[j] == flags[j]);
    }
}

/// The first `true` is at `i` when `flags[i]` holds and nothing before it does.
pub proof fn lemma_first_true_at(flags: Seq<bool>, i: int)
    requires
        0 <= i < flags.len(),
        flags[i],
        forall|j: int| 0 <= j < i ==> !flags[j],
    ensures
        first_true(flags) == Some(i),
{
    lemma_first_true(flags);
    match first_true(flags) {
        Some(k) => {
            if k < i {
                assert(!flags[k]);
            } else if k > i {
                assert(!flags[i]);
            }
        },
        None => {
            assert(!flags[i]);
        },
    }
}

/// The first SDK named `name`, if any.
fn select_by_name(config: &XcrunConfiguration, name: &String) -> (r: Option<usize>)
    ensures
        opt_int(r) == first_true(name_flags(config.sdks@, name@)),
{
    let ghost flags = name_flags(config.sdks@, name@);
    let mut i: usize = 0;
    while i < config.sdks.len()
        invariant
            i <= config.sdks@.len(),
            flags == name_flags(config.sdks@, name@),
            forall|j: int| 0 <= j < i ==> !flags[j],
        decreases config.sdks@.len() - i,
    {
        if config.sdks[i].name == *name {
            proof {
                lemma_first_true_at(flags, i as int);
            }
            return Some(i);
        }
        i = i + 1;
    }
    proof {
        lemma_first_true(flags);
    }
    None
}

/// An optional index as a mathematical integer.
pub open spec fn opt_int(r: Option<usize>) -> Option<int> {
    match r {
        Some(i) => Some(i as int),
        None => None,
    }
}

/// Selects an SDK, given for each SDK whether it holds the tool. With a name
/// hint, `present` is not consulted and may be empty.
pub fn select_sdk_among(config: &XcrunConfiguration, hint: &Option<String>, present: &Vec<bool>) -> (r: Option<usize>)
    requires
        hint is None ==> present@.len() == config.sdks@.len(),
    ensures
        opt_int(r) == spec_select(config.sdks@, opt_view(*hint), present@),
{
    match hint {
        Some(name) => select_by_name(config, name),
        None => {
            let mut i: usize = 0;
            while i < present.len()
                invariant
                    i <= present@.len(),
                    hint is None,
                    forall|j: int| 0 <= j < i ==> !present@[j],
                decreases present@.len() - i,
            {
                if present[i] {
                    proof {
                        lemma_first_true_at(present@, i as int);
                    }
                    return Some(i);
                }
                i = i + 1;
            }
            proof {
                lemma_first_true(present@);
            }
            None
        },
    }
}

/// Locates a tool inside `sdk`, given whether it is at `bin/<tool>` and at
/// `usr/bin/<tool>`: the first of the two that holds it.
pub fn locate_tool(sdk: &Sdk, tool: &str, in_bin: bool, in_usr_bin: bool) -> (r: Option<String>)
    ensures
        opt_view(r) == spec_locate(sdk.path@, tool@, in_bin, in_usr_bin),
{
    if in_bin {
        Some(bin_candidate(sdk.path.as_str(), tool))
    } else if in_usr_bin {
        Some(usr_bin_candidate(sdk.path.as_str(), tool))
    } else {
        None
    }
}

/// What the disk answered when a tool was looked for inside one SDK:
/// `bin/<tool>` first, then `usr/bin/<tool>` only when the first was absent.
#[derive(Debug, PartialEq, Eq)]
pub struct Presence {
    pub bin: Probe,
    pub usr_bin: Option<Probe>,
}

/// `p` asked about `tool` inside the SDK at `sdk_path`, in the fixed order.
pub open spec fn presence_ok(p: Presence, sdk_path: Seq<char>, tool: Seq<char>) -> bool {
    &&& p.bin.spec_path() == spec_bin_candidate(sdk_path, tool)
    &&& (p.usr_bin is Some) == !p.bin.spec_found()
    &&& p.usr_bin is Some ==> p.usr_bin->Some_0.spec_path() == spec_usr_bin_candidate(sdk_path, tool)
}

/// The disk answered that the tool is at `bin/<tool>`.
pub open spec fn in_bin(p: Presence) -> bool {
    p.bin.spec_found()
}

/// The disk answered that the tool is at `usr/bin/<tool>`.
pub open spec fn in_usr_bin(p: Presence) -> bool {
    p.usr_bin is Some && p.usr_bin->Some_0.spec_found()
}

/// The disk answered that the tool is in the SDK.
pub open spec fn holds_tool(p: Presence) -> bool {
    in_bin(p) || in_usr_bin(p)
}

impl Presence {
    /// Whether the tool is at `bin/<tool>`.
    pub fn in_bin(&self) -> (r: bool)
        ensures
            r == in_bin(*self),
    {
        self.bin.found()
    }

    /// Whether the tool is at `usr/bin/<tool>`.
    pub fn in_usr_bin(&self) -> (r: bool)
        ensures
            r == in_usr_bin(*self),
    {
        match &self.usr_bin {
            Some(p) => p.found(),
            None => false,
        }
    }

    /// Whether the tool is in the SDK at all.
    pub fn holds_tool(&self) -> (r: bool)
        ensures
            r == holds_tool(*self),
    {
        self.in_bin() || self.in_usr_bin()
    }

    /// A copy of these answers.
    pub fn duplicate(&self) -> (r: Presence)
        ensures
            r == *self,
    {
        let usr_bin = match &self.usr_bin {
            Some(p) => Some(p.duplicate()),
            None => None,
        };
        Presence { bin: self.bin.duplicate(), usr_bin }
    }
}

/// Asks the disk whether `tool` is inside `sdk`: `bin/<tool>` first, and
/// `usr/bin/<tool>` only when `bin/<tool>` is absent.
pub fn probe_tool(sdk: &Sdk, tool: &str) -> (r: Presence)
    ensures
        presence_ok(r, sdk.path@, tool@),
{
    let bin = Probe::ask(bin_candidate(sdk.path.as_str(), tool));
    if bin.found() {
        Presence { bin, usr_bin: None }
    } else {
        let usr_bin = Probe::ask(usr_bin_candidate(sdk.path.as_str(), tool));
        Presence { bin, usr_bin: Some(usr_bin) }
    }
}

/// Locates a tool inside `sdk` on disk, returning where it is together with
/// what the disk answered: `bin/<tool>` when present there, else
/// `usr/bin/<tool>` when present there, else nothing.
pub fn find_tool(sdk: &Sdk, tool: &str) -> (r: (Option<String>, Presence))
    ensures
        presence_ok(r.1, sdk.path@, tool@),
        opt_view(r.0) == spec_locate(sdk.path@, tool@, in_bin(r.1), in_usr_bin(r.1)),
{
    let presence = probe_tool(sdk, tool);
    let found = locate_tool(sdk, tool, presence.in_bin(), presence.in_usr_bin());
    (found, presence)
}

/// An SDK chosen for a tool, with what the disk answered along the way.
#[derive(Debug, PartialEq, Eq)]
pub struct Selection {
    pub index: Option<usize>,
    /// One entry per SDK probed, in store order.
    pub probes: Vec<Presence>,
}

/// For each of `n` SDKs, whether the probes found the tool in it; an SDK
/// not probed counts as not holding it.
pub open spec fn probe_flags(probes: Seq<Presence>, n: nat) -> Seq<bool> {
    Seq::new(n, |i: int| i < probes.len() && holds_tool(probes[i]))
}

/// `s` is how `tool` selects among `sdks`: with a hint, by name alone and
/// without a probe; otherwise by probing one SDK after another, in store
/// order, up to the first that holds the tool.
pub open spec fn selection_ok(s: Selection, sdks: Seq<Sdk>, hint: Option<Seq<char>>, tool: Seq<char>) -> bool {
    match hint {
        Some(_) => s.probes@.len() == 0 && opt_int(s.index) == spec_select(sdks, hint, Seq::empty()),
        None => {
            &&& s.probes@.len() <= sdks.len()
            &&& forall|i: int| 0 <= i < s.probes@.len() ==> presence_ok(#[trigger] s.probes@[i], sdks[i].path@, tool)
            &&& forall|i: int| 0 <= i < s.probes@.len() - 1 ==> !holds_tool(#[trigger] s.probes@[i])
            &&& s.probes@.len() < sdks.len() ==> s.probes@.len() > 0 && holds_tool(s.probes@.last())
            &&& opt_int(s.index) == spec_select(sdks, None, probe_flags(s.probes@, sdks.len()))
        },
    }
}

/// Selects an SDK for `tool`: with a name hint, the first SDK of that name,
/// with no look at the disk; otherwise the first SDK, in store order, that
/// holds the tool at `bin/<tool>` or `usr/bin/<tool>`, probing one SDK after
/// another until one does.
pub fn select_sdk(config: &XcrunConfiguration, hint: &Option<String>, tool: &str) -> (r: Selection)
    ensures
        selection_ok(r, config.sdks@, opt_view(*hint), tool@),
{
    if hint.is_some() {
        let index = select_sdk_among(config, hint, &Vec::new());
        return Selection { index, probes: Vec::new() };
    }
    let n = config.sdks.len();
    let mut probes: Vec<Presence> = Vec::new();
    let mut present: Vec<bool> = Vec::new();
    let mut i: usize = 0;
    let mut found = false;
    while i < n && !found
        invariant
            n == config.sdks@.len(),
            hint is None,
            i <= n,
            probes@.len() == i,
            present@ == Seq::new(i as nat, |j: int| holds_tool(probes@[j])),
            forall|j: int| 0 <= j < i ==> presence_ok(#[trigger] probes@[j], config.sdks@[j].path@, tool@),
            forall|j: int| 0 <= j < i - 1 ==> !holds_tool(#[trigger] probes@[j]),
            found ==> i > 0 && holds_tool(probes@[i - 1]),
            !found && i > 0 ==> !holds_tool(probes@[i - 1]),
        decreases n - i,
    {
        let p = probe_tool(&config.sdks[i], tool);
        let holds = p.holds_tool();
        probes.push(p);
        present.push(holds);
        i = i + 1;
        found = holds;
    }
    let ghost k = present@.len();
    while present.len() < n
        invariant
            n == config.sdks@.len(),
            k <= present@.len() <= n,
            forall|j: int| 0 <= j < k ==> present@[j] == holds_tool(probes@[j]),
            forall|j: int| k <= j < present@.len() ==> !present@[j],
        decreases n - present@.len(),
    {
        present.push(false);
    }
    let index = select_sdk_among(config, hint, &present);
    assert(present@ =~= probe_flags(probes@, n as nat));
    Selection { index, probes }
}

/// A resolution, with what the disk answered along the way.
#[derive(Debug, PartialEq, Eq)]
pub struct Resolution {
    pub result: Result<ResolvedTool, ResolveError>,
    pub selection: Selection,
    /// The answers that location went by, once an SDK was selected.
    pub location: Option<Presence>,
}

/// Location of `tool` in SDK `i` on the answers `p`, as a resolution result.
pub open spec fn spec_resolve_at(sdks: Seq<Sdk>, i: int, tool: Seq<char>, p: Presence) -> Result<(int, Seq<char>), ResolveError> {
    match spec_locate(sdks[i].path@, tool, in_bin(p), in_usr_bin(p)) {
        None => Err(ResolveError::ToolNotFound),
        Some(path) => Ok((i, path)),
    }
}

/// `r` is how `tool` resolves among `sdks`: selection as `selection_ok` says,
/// then location in the selected SDK on the answers recorded. Without a hint
/// these are the answers that selected the SDK.
pub open spec fn resolution_ok(r: Resolution, sdks: Seq<Sdk>, hint: Option<Seq<char>>, tool: Seq<char>) -> bool {
    &&& selection_ok(r.selection, sdks, hint, tool)
    &&& match r.selection.index {
        None => r.location is None && resolved_view(r.result) == Err::<(int, Seq<char>), ResolveError>(ResolveError::SdkSelectionFailed),
        Some(i) => {
            &&& r.location is Some
            &&& (i as int) < sdks.len()
            &&& presence_ok(r.location->Some_0, sdks[i as int].path@, tool)
            &&& hint is None ==> r.location->Some_0 == r.selection.probes@.last()
            &&& resolved_view(r.result) == spec_resolve_at(sdks, i as int, tool, r.location->Some_0)
        },
    }
}

/// Resolves `tool`: selects an SDK, then locates the tool inside it. With a
/// hint the selected SDK is probed; without one, the answers that selected
/// it are used again.
pub fn resolve(config: &XcrunConfiguration, hint: &Option<String>, tool: &str) -> (r: Resolution)
    ensures
        resolution_ok(r, config.sdks@, opt_view(*hint), tool@),
{
    let selection = select_sdk(config, hint, tool);
    match selection.index {
        None => Resolution { result: Err(ResolveError::SdkSelectionFailed), selection, location: None },
        Some(i) => {
            proof {
                if hint is Some {
                    lemma_first_true(name_flags(config.sdks@, opt_view(*hint)->Some_0));
                } else {
                    let flags = probe_flags(selection.probes@, config.sdks@.len());
                    lemma_first_true(flags);
                    assert(flags[i as int]);
                }
            }
            let presence = if hint.is_some() {
                probe_tool(&config.sdks[i], tool)
            } else {
                selection.probes[selection.probes.len() - 1].duplicate()
            };
            let result = match locate_tool(&config.sdks[i], tool, presence.in_bin(), presence.in_usr_bin()) {
                None => Err(ResolveError::ToolNotFound),
                Some(executable_path) => Ok(ResolvedTool { sdk_index: i, executable_path }),
            };
            Resolution { result, selection, location: Some(presence) }
        },
    }
}

/// Without a hint, selection and location go by the same answers, so an SDK
/// that is selected always yields the tool, from the earliest SDK holding it.
pub proof fn lemma_selected_sdk_holds_tool(r: Resolution, sdks: Seq<Sdk>, tool: Seq<char>)
    requires
        resolution_ok(r, sdks, None, tool),
        r.selection.index is Some,
    ensures
        r.result is Ok,
        r.result->Ok_0.sdk_index == r.selection.index->Some_0,
        r.selection.index->Some_0 == r.selection.probes@.len() - 1,
{
    let flags = probe_flags(r.selection.probes@, sdks.len());
    let i = r.selection.index->Some_0 as int;
    lemma_first_true(flags);
    assert(flags[i]);
    if i < r.selection.probes@.len() - 1 {
        assert(!holds_tool(r.selection.probes@[i]));
    }
}

/// The diagnostic for a tool that could not be resolved.
pub open spec fn spec_not_found_message(tool: Seq<char>) -> Seq<char> {
    "xcrun: error: tool not found: "@ + tool
}

/// The diagnostic for a tool that could not be resolved. Selection and
/// location failures read the same.
pub fn not_found_message(tool: &str) -> (r: String)
    ensures
        r@ == spec_not_found_message(tool@),
{
    let mut r = String::from_str("xcrun: error: tool not found: ");
    r.append(tool);
    r
}

/// With a name hint, selection picks the first SDK of that name, and what is
/// on disk has no bearing on it.
pub proof fn lemma_hint_selects_named(sdks: Seq<Sdk>, name: Seq<char>, present: Seq<bool>, k: int)
    requires
        0 <= k < sdks.len(),
        sdks[k].name@ == name,
    ensures
        spec_select(sdks, Some(name), present) is Some,
        ({
            let i = spec_select(sdks, Some(name), present)->Some_0;
            0 <= i <= k && sdks[i].name@ == name && forall|j: int| 0 <= j < i ==> sdks[j].name@ != name
        }),
        forall|other: Seq<bool>| #[trigger] spec_select(sdks, Some(name), other) == spec_select(sdks, Some(name), present),
{
    let flags = name_flags(sdks, name);
    lemma_first_true(flags);
    assert(flags[k]);
    let i = first_true(flags)->Some_0;
    assert forall|j: int| 0 <= j < i implies sdks[j].name@ != name by {
        assert(!flags[j]);
    }
}

/// Without a hint, selection picks the earliest SDK that holds the tool, and
/// fails only when none does.
pub proof fn lemma_no_hint_selects_first_present(sdks: Seq<Sdk>, present: Seq<bool>)
    requires
        present.len() == sdks.len(),
    ensures
        match spec_select(sdks, None, present) {
            Some(i) => 0 <= i < sdks.len() && present[i] && forall|j: int| 0 <= j < i ==> !present[j],
            None => forall|j: int| 0 <= j < sdks.len() ==> !present[j],
        },
{
    lemma_first_true(present);
}

/// Location prefers `bin/<tool>`: when the tool is there it is returned,
/// whether or not `usr/bin/<tool>` also holds it; `usr/bin/<tool>` is
/// returned only when `bin/<tool>` is absent.
pub proof fn lemma_bin_before_usr_bin(sdk_path: Seq<char>, tool: Seq<char>, in_bin: bool, in_usr_bin: bool)
    ensures
        in_bin ==> spec_locate(sdk_path, tool, in_bin, in_usr_bin) == Some(spec_bin_candidate(sdk_path, tool)),
        !in_bin && in_usr_bin ==> spec_locate(sdk_path, tool, in_bin, in_usr_bin) == Some(spec_usr_bin_candidate(sdk_path, tool)),
        !in_bin && !in_usr_bin ==> spec_locate(sdk_path, tool, in_bin, in_usr_bin) is None,
{
}

} // verus!
