//! The guard on identifiers that come from the host before they enter an argument vector.

use vstd::prelude::*;

verus! {

/// `id` names something, and no command line reads it as an option.
pub open spec fn flag_safe(id: Seq<char>) -> bool {
    id.len() > 0 && id[0] != '-'
}

/// Whether a host-supplied identifier can stand in an argument vector: it is not empty and does
/// not begin with a dash.
pub fn is_flag_safe(id: &str) -> (safe: bool)
    ensures
        safe == flag_safe(id@),
{
    !id.is_empty() && id.get_char(0) != '-'
}

} // verus!
