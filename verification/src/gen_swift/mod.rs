//! The Swift side: the wrapper generator and the filters of its template.

pub mod filters;

use vstd::prelude::*;
use crate::generator::RNConfig;
use crate::interface::ComponentInterface;

verus! {

/// Generates the Swift wrapper of an interface.
pub struct Generator<'a> {
    config: RNConfig,
    ci: &'a ComponentInterface,
}

impl<'a> Generator<'a> {
    pub closed spec fn config_view(&self) -> RNConfig {
        self.config
    }

    pub closed spec fn ci_view(&self) -> &'a ComponentInterface {
        self.ci
    }

    pub fn new(config: RNConfig, ci: &'a ComponentInterface) -> (r: Self)
        ensures
            r.config_view() == config,
            r.ci_view() == ci,
    {
        Self { config, ci }
    }

    /// The configuration the generator was made with.
    pub fn config(&self) -> (r: &RNConfig)
        ensures
            *r == self.config_view(),
    {
        &self.config
    }

    /// The interface the generator renders.
    pub fn ci(&self) -> (r: &'a ComponentInterface)
        ensures
            r == self.ci_view(),
    {
        self.ci
    }
}

} // verus!
