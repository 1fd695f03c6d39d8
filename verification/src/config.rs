//! Start-up settings: which address the relay binds.

use vstd::prelude::*;

verus! {

/// The text that switches a setting off.
pub open spec fn off_text() -> Seq<char> {
    "false"@
}

/// Whether the relay binds the loopback address only, given what the
/// setting holds: it does unless the setting is the text `false`.
pub open spec fn binds_localhost(setting: Option<Seq<char>>) -> bool {
    setting != Some(off_text())
}

/// Tells whether two texts are the same.
pub fn same_text(left: &str, right: &str) -> (same: bool)
    ensures
        same == (left@ == right@),
{
    left.to_owned() == right.to_owned()
}

/// Decides from the setting, as read from the environment, whether the relay
/// binds the loopback address only. It does where the setting is absent and
/// where it is not a boolean.
pub fn bind_localhost_addr(setting: Option<&str>) -> (localhost: bool)
    ensures
        localhost == binds_localhost(
            match setting {
                Some(text) => Some(text@),
                None => None,
            },
        ),
{
    match setting {
        Some(text) => !same_text(text, "false"),
        None => true,
    }
}

/// The address to bind: the loopback address, or every address of the host.
pub fn bind_addr(localhost: bool) -> (addr: &'static str)
    ensures
        addr@ == if localhost {
            "127.0.0.1:8080"@
        } else {
            "0.0.0.0:8080"@
        },
{
    if localhost {
        "127.0.0.1:8080"
    } else {
        "0.0.0.0:8080"
    }
}

} // verus!
