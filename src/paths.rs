use vstd::prelude::*;
use vstd::string::*;

verus! {

/// True when `s` starts with a path separator, i.e. names an absolute path.
pub open spec fn is_absolute(s: Seq<char>) -> bool {
    s.len() > 0 && s[0] == '/'
}

/// The path reached by joining `part` onto `base`, the way Unix paths join:
/// an absolute `part` replaces `base`; otherwise a separator is inserted
/// unless `base` is empty or already ends with one.
pub open spec fn spec_join(base: Seq<char>, part: Seq<char>) -> Seq<char> {
    if is_absolute(part) {
        part
    } else if base.len() == 0 {
        part
    } else if base.last() == '/' {
        base + part
    } else {
        base + seq!['/'] + part
    }
}

/// `<sdk>/bin/<tool>`, the first conventional location of a tool.
pub open spec fn spec_bin_candidate(sdk_path: Seq<char>, tool: Seq<char>) -> Seq<char> {
    spec_join(spec_join(sdk_path, seq!['b', 'i', 'n']), tool)
}

/// `<sdk>/usr/bin/<tool>`, the second conventional location of a tool.
pub open spec fn spec_usr_bin_candidate(sdk_path: Seq<char>, tool: Seq<char>) -> Seq<char> {
    spec_join(spec_join(sdk_path, seq!['u', 's', 'r', '/', 'b', 'i', 'n']), tool)
}

/// Joins `part` onto `base` (see `spec_join`).
pub fn join_path(base: &str, part: &str) -> (r: String)
    ensures
        r@ == spec_join(base@, part@),
{
    let part_len = part.unicode_len();
    if part_len > 0 && part.get_char(0) == '/' {
        return String::from_str(part);
    }
    let base_len = base.unicode_len();
    let mut r = String::from_str(base);
    if base_len > 0 && base.get_char(base_len - 1) != '/' {
        proof {
            reveal_strlit("/");
        }
        r.append("/");
    }
    r.append(part);
    proof {
        if base_len > 0 {
            assert(base@.last() == base@[base_len - 1]);
        }
    }
    r
}

/// The path at which a tool is looked for first inside an SDK.
pub fn bin_candidate(sdk_path: &str, tool: &str) -> (r: String)
    ensures
        r@ == spec_bin_candidate(sdk_path@, tool@),
{
    proof {
        reveal_strlit("bin");
    }
    let dir = join_path(sdk_path, "bin");
    join_path(dir.as_str(), tool)
}

/// The path at which a tool is looked for second inside an SDK.
pub fn usr_bin_candidate(sdk_path: &str, tool: &str) -> (r: String)
    ensures
        r@ == spec_usr_bin_candidate(sdk_path@, tool@),
{
    proof {
        reveal_strlit("usr/bin");
    }
    let dir = join_path(sdk_path, "usr/bin");
    join_path(dir.as_str(), tool)
}

/// Relies on std::path::Path::exists: whether something is at `p` on disk
/// right now. Nothing is promised of the answer, which the disk decides.
#[verifier::external_body]
fn path_exists(p: &str) -> (r: bool) {
    std::path::Path::new(p).exists()
}

/// One answer of the disk: whether something was at a path when it was
/// asked. A value of this type is made only by asking.
#[derive(Debug, PartialEq, Eq)]
pub struct Probe {
    path: String,
    found: bool,
}

impl Probe {
    /// The path that was asked about.
    pub closed spec fn spec_path(&self) -> Seq<char> {
        self.path@
    }

    /// What the disk answered.
    pub closed spec fn spec_found(&self) -> bool {
        self.found
    }

    /// Asks the disk whether something is at `path`.
    pub fn ask(path: String) -> (r: Probe)
        ensures
            r.spec_path() == path@,
    {
        let found = path_exists(path.as_str());
        Probe { path, found }
    }

    /// What the disk answered.
    pub fn found(&self) -> (r: bool)
        ensures
            r == self.spec_found(),
    {
        self.found
    }

    /// The path that was asked about.
    pub fn path(&self) -> (r: &String)
        ensures
            r@ == self.spec_path(),
    {
        &self.path
    }

    /// A copy of this answer.
    pub fn duplicate(&self) -> (r: Probe)
        ensures
            r == *self,
    {
        Probe { path: self.path.clone(), found: self.found }
    }
}

} // verus!
