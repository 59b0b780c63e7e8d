use vstd::prelude::*;

verus! {

/// The settings of the application.
#[derive(Debug, Clone)]
pub struct AppConfig {
    pub distribution: DistributionConfig,
}

/// What the build calls itself.
#[derive(Debug, Clone)]
pub struct DistributionConfig {
    pub name: String,
    pub version: String,
}

} // verus!
