use vstd::prelude::*;

verus! {

/// One installed SDK.
#[derive(Debug, Clone, PartialEq, Eq)]
pub struct Sdk {
    /// The name of the SDK.
    pub name: String,
    /// The path to the SDK.
    pub path: String,
    /// The version of the SDK.
    pub version: String,
    /// The target triple of the SDK.
    pub target_triple: String,
    /// The minimum deployment target of the SDK on macOS.
    pub macosx_deployment_target: String,
    /// The minimum deployment target of the SDK on iOS.
    pub ios_deployment_target: String,
}

/// The SDKs that can be used, in the order in which they were configured.
#[derive(Debug, Clone, PartialEq, Eq)]
pub struct XcrunConfiguration {
    pub sdks: Vec<Sdk>,
}

/// A field of an SDK that a whole-store report prints.
#[derive(Debug, Clone, Copy, PartialEq, Eq, Structural)]
pub enum SdkField {
    Path,
    Version,
    TargetTriple,
}

/// The view of a list of strings.
pub open spec fn strings_view(v: Seq<String>) -> Seq<Seq<char>> {
    v.map_values(|s: String| s@)
}

/// The value of `field` in `sdk`.
pub open spec fn field_value(sdk: Sdk, field: SdkField) -> Seq<char> {
    match field {
        SdkField::Path => sdk.path@,
        SdkField::Version => sdk.version@,
        SdkField::TargetTriple => sdk.target_triple@,
    }
}

/// One line per SDK, in store order: the value of `field` in each.
pub open spec fn spec_field_lines(sdks: Seq<Sdk>, field: SdkField) -> Seq<Seq<char>> {
    Seq::new(sdks.len(), |i: int| field_value(sdks[i], field))
}

/// The value of `field` in `sdk`.
pub fn field_of(sdk: &Sdk, field: SdkField) -> (r: String)
    ensures
        r@ == field_value(*sdk, field),
{
    match field {
        SdkField::Path => sdk.path.clone(),
        SdkField::Version => sdk.version.clone(),
        SdkField::TargetTriple => sdk.target_triple.clone(),
    }
}

impl XcrunConfiguration {
    /// Reports `field` for every configured SDK, one line each, in store order.
    pub fn field_lines(&self, field: SdkField) -> (r: Vec<String>)
        ensures
            strings_view(r@) == spec_field_lines(self.sdks@, field),
    {
        let mut r: Vec<String> = Vec::new();
        let mut i: usize = 0;
        while i < self.sdks.len()
            invariant
                i <= self.sdks@.len(),
                r@.len() == i,
                forall|j: int| 0 <= j < i ==> #[trigger] r@[j]@ == field_value(self.sdks@[j], field),
            decreases self.sdks@.len() - i,
        {
            r.push(field_of(&self.sdks[i], field));
            i = i + 1;
        }
        assert(strings_view(r@) =~= spec_field_lines(self.sdks@, field));
        r
    }
}

} // verus!
