//! Where configuration lives: `$XDG_CONFIG_HOME/phosphor`, else
//! `$HOME/.config/phosphor`. Reading the environment is the host's; this is
//! the rule it applies.

use vstd::prelude::*;

use crate::text_util::{is_absolute, path_join, spec_is_absolute, spec_path_join};

verus! {

/// Neither variable names an absolute directory.
#[derive(Debug, Clone, Copy, PartialEq, Eq, Structural)]
pub struct NoConfigHome;

impl NoConfigHome {
    /// What the error says.
    pub fn message(&self) -> (r: &'static str)
        ensures
            r@ == "neither XDG_CONFIG_HOME nor HOME names an absolute directory"@,
    {
        "neither XDG_CONFIG_HOME nor HOME names an absolute directory"
    }
}

/// The configuration home the two variables name: an absolute
/// `XDG_CONFIG_HOME`, else an absolute `HOME` plus `.config`. A relative
/// value is treated as unset, never resolved against the working directory.
pub open spec fn spec_home_from(xdg: Option<Seq<char>>, home: Option<Seq<char>>) -> Option<Seq<char>> {
    if xdg is Some && spec_is_absolute(xdg->0) {
        Some(xdg->0)
    } else if home is Some && spec_is_absolute(home->0) {
        Some(spec_path_join(home->0, ".config"@))
    } else {
        None
    }
}

/// The configuration home, from the values of `XDG_CONFIG_HOME` and `HOME`.
pub fn home_from(xdg: Option<String>, home: Option<String>) -> (r: Result<String, NoConfigHome>)
    ensures
        match spec_home_from(
            match xdg {
                Some(x) => Some(x@),
                None => None,
            },
            match home {
                Some(h) => Some(h@),
                None => None,
            },
        ) {
            Some(dir) => r matches Ok(d) && d@ == dir,
            None => r == Err::<String, NoConfigHome>(NoConfigHome),
        },
{
    match xdg {
        Some(dir) => {
            if is_absolute(dir.as_str()) {
                return Ok(dir);
            }
        },
        None => {},
    }
    match home {
        Some(h) => {
            if is_absolute(h.as_str()) {
                return Ok(path_join(h.as_str(), ".config"));
            }
        },
        None => {},
    }
    Err(NoConfigHome)
}

/// The configuration directory, from the values of `XDG_CONFIG_HOME` and
/// `HOME`.
pub fn config_dir(xdg: Option<String>, home: Option<String>) -> (r: Result<String, NoConfigHome>)
    ensures
        match spec_home_from(
            match xdg {
                Some(x) => Some(x@),
                None => None,
            },
            match home {
                Some(h) => Some(h@),
                None => None,
            },
        ) {
            Some(dir) => r matches Ok(d) && d@ == spec_path_join(dir, "phosphor"@),
            None => r == Err::<String, NoConfigHome>(NoConfigHome),
        },
{
    let home = home_from(xdg, home)?;
    Ok(config_dir_in(home.as_str()))
}

/// The configuration directory under a configuration home.
pub fn config_dir_in(config_home: &str) -> (r: String)
    ensures
        r@ == spec_path_join(config_home@, "phosphor"@),
{
    path_join(config_home, "phosphor")
}

} // verus!
