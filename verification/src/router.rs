//! The router: a request path matches the first command in configuration
//! order whose endpoint equals the path exactly. There is no prefix or
//! wildcard matching, and duplicate endpoints later in the list are never
//! reached.

use vstd::prelude::*;
use crate::bytes::bytes_eq;
use crate::config::Command;

verus! {

/// Index of the first command at or after `i` whose endpoint is `path`.
pub open spec fn route_from(cmds: Seq<Command>, path: Seq<u8>, i: int) -> Option<int>
    decreases cmds.len() - i,
{
    if i < 0 || i >= cmds.len() {
        None
    } else if cmds[i].endpoint@ == path {
        Some(i)
    } else {
        route_from(cmds, path, i + 1)
    }
}

/// Index of the first command whose endpoint is `path`, if any.
pub open spec fn spec_route(cmds: Seq<Command>, path: Seq<u8>) -> Option<int> {
    route_from(cmds, path, 0)
}

/// What `route_from` returns: the first match at or after `i`, or none.
pub proof fn lemma_route_from(cmds: Seq<Command>, path: Seq<u8>, i: int)
    requires
        0 <= i <= cmds.len(),
    ensures
        match route_from(cmds, path, i) {
            Some(j) => i <= j < cmds.len() && cmds[j].endpoint@ == path && (forall|k: int|
                i <= k < j ==> cmds[k].endpoint@ != path),
            None => forall|k: int| i <= k < cmds.len() ==> cmds[k].endpoint@ != path,
        },
    decreases cmds.len() - i,
{
    if i < cmds.len() && cmds[i].endpoint@ != path {
        lemma_route_from(cmds, path, i + 1);
    }
}

/// First command whose endpoint equals `path`, scanning in list order.
pub fn find_command(commands: &Vec<Command>, path: &Vec<u8>) -> (r: Option<usize>)
    ensures
        match r {
            Some(i) => spec_route(commands@, path@) == Some(i as int) && i < commands@.len(),
            None => spec_route(commands@, path@) is None,
        },
{
    let mut i: usize = 0;
    while i < commands.len()
        invariant
            0 <= i <= commands@.len(),
            route_from(commands@, path@, 0) == route_from(commands@, path@, i as int),
        decreases commands@.len() - i,
    {
        if bytes_eq(&commands[i].endpoint, path) {
            return Some(i);
        }
        assert(route_from(commands@, path@, i as int) == route_from(commands@, path@, i + 1));
        i = i + 1;
    }
    None
}

} // verus!
