//! The configuration of the React Native binding generator, its defaults, and where
//! the generator puts what it writes.

use vstd::prelude::*;
use crate::interface::ComponentInterface;

verus! {

/// The `[bindings.rn]` section of the generator's configuration.
#[derive(Debug, Clone)]
pub struct RNConfig {
    package_name: Option<String>,
}

impl RNConfig {
    /// The configured package name, if any.
    pub closed spec fn package_name_view(&self) -> Option<Seq<char>> {
        match self.package_name {
            Some(p) => Some(p@),
            None => None,
        }
    }

    pub fn new(package_name: Option<String>) -> (r: Self)
        ensures
            r.package_name_view() == (match package_name {
                Some(p) => Some(p@),
                None => None,
            }),
    {
        RNConfig { package_name }
    }

    pub fn package_name(&self) -> (r: Option<&str>)
        ensures
            match r {
                Some(p) => self.package_name_view() == Some(p@),
                None => self.package_name_view() is None,
            },
    {
        match &self.package_name {
            Some(p) => Some(p.as_str()),
            None => None,
        }
    }

    /// The configuration entries that default to values taken from the interface:
    /// the package name and the name of the dynamic library, both the namespace.
    pub fn get_config_defaults(ci: &ComponentInterface) -> (r: Vec<(String, String)>)
        ensures
            r@.len() == 2,
            r@[0].0@ == "package_name"@,
            r@[0].1@ == ci.namespace_view(),
            r@[1].0@ == "cdylib_name"@,
            r@[1].1@ == ci.namespace_view(),
    {
        let mut defaults: Vec<(String, String)> = Vec::new();
        defaults.push((String::from_str("package_name"), String::from_str(ci.namespace())));
        defaults.push((String::from_str("cdylib_name"), String::from_str(ci.namespace())));
        defaults
    }
}

impl Default for RNConfig {
    fn default() -> (r: Self)
        ensures
            r.package_name_view() is None,
    {
        RNConfig { package_name: None }
    }
}

/// The React Native binding generator: it writes the bindings of an interface under
/// an output directory.
pub struct RNBindingGenerator {}

impl RNBindingGenerator {
    /// Where, under the output directory, the Kotlin mapper goes.
    pub fn kotlin_output_path(&self) -> (r: &'static str)
        ensures
            r@ == "android/src/main/java/com/breezsdk/BreezSDKMapper.kt"@,
    {
        "android/src/main/java/com/breezsdk/BreezSDKMapper.kt"
    }

}

} // verus!
