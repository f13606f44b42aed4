use vstd::prelude::*;
use vstd::string::*;

use crate::text::quoted;

verus! {

/// The line that declares `key` with the value space written `space`.
pub open spec fn check_cfg_line(key: Seq<char>, space: Seq<char>) -> Seq<char> {
    "cargo::rustc-check-cfg=cfg("@ + key + ", values("@ + space + "))"@
}

/// The line that sets `key`, bare or to a quoted value.
pub open spec fn cfg_line(key: Seq<char>, value: Option<Seq<char>>) -> Seq<char> {
    match value {
        None => "cargo::rustc-cfg="@ + key,
        Some(v) => "cargo::rustc-cfg="@ + key + "="@ + quoted(v),
    }
}

/// Builds the declaration line of `key` with the value space written `space`.
pub fn check_cfg_directive(key: &str, space: &str) -> (r: String)
    ensures
        r@ == check_cfg_line(key@, space@),
{
    let mut line = String::from_str("cargo::rustc-check-cfg=cfg(");
    line.append(key);
    line.append(", values(");
    line.append(space);
    line.append("))");
    line
}

/// Builds the line that sets `key`, bare when `value` is absent.
pub fn cfg_directive(key: &str, value: Option<&str>) -> (r: String)
    ensures
        r@ == cfg_line(key@, value.deep_view()),
{
    let mut line = String::from_str("cargo::rustc-cfg=");
    line.append(key);
    match value {
        None => {},
        Some(v) => {
            proof {
                reveal_strlit("\"");
            }
            line.append("=");
            line.append("\"");
            line.append(v);
            line.append("\"");
        },
    }
    line
}

} // verus!
