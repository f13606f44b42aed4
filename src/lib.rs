//! Declares custom `cfg` predicates for a build step and checks the values
//! assigned to them.
mod cfg;
mod directive;
mod text;

pub use cfg::{Cfg, CfgError, CheckedCfg, CheckedCfgModel, EnvVarError, ValueSpace};
pub use directive::{cfg_directive, check_cfg_directive};
pub use text::{contains_str, list_to_value_str, str_eq};
