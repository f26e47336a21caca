//! What the application asks of the graphics setup.

use vstd::prelude::*;

verus! {

/// How the application would like what it renders to be blended with the
/// surroundings.
#[derive(Clone, Copy, Debug, PartialEq, Eq, Structural)]
pub enum XrPreferdBlendMode {
    Opaque,
    Additive,
    AlphaBlend,
}

impl Default for XrPreferdBlendMode {
    fn default() -> (mode: Self)
        ensures
            mode == XrPreferdBlendMode::Opaque,
    {
        Self::Opaque
    }
}

/// How the application introduces itself to the runtime.
#[derive(Debug)]
pub struct XrAppInfo {
    pub name: String,
}

impl Clone for XrAppInfo {
    fn clone(&self) -> (info: Self)
        ensures
            info.name@ == self.name@,
    {
        Self { name: self.name.clone() }
    }
}

impl Default for XrAppInfo {
    fn default() -> (info: Self)
        ensures
            info.name@ == "Ambient"@,
    {
        Self { name: "Ambient".to_owned() }
    }
}

} // verus!
