//! Detection of the line with which the engine announces its tunnel adapter.

use vstd::prelude::*;
use crate::text::{contains, has_substring};

verus! {

/// The text that the engine writes once its tunnel adapter is up.
pub const TRIGGER: &'static str = "[TUN] Tun adapter listening at: utun";

/// Whether a line announces the tunnel adapter: the trigger text stands
/// somewhere in it, whatever surrounds it.
pub open spec fn announces_tunnel(line: Seq<char>) -> bool {
    has_substring(line, TRIGGER@)
}

/// Whether `line` announces the tunnel adapter.
pub fn is_trigger(line: &str) -> (r: bool)
    ensures
        r == announces_tunnel(line@),
{
    contains(line, TRIGGER)
}

} // verus!
