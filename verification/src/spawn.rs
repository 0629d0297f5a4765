//! The environment that an agent process is started with.

use vstd::prelude::*;
use crate::map::TextMap;

verus! {

/// The variables a process starts with before its own: `PATH`, when the
/// node has one.
pub open spec fn inherited_vars(path: Option<String>) -> Map<Seq<char>, String> {
    match path {
        Some(p) => Map::<Seq<char>, String>::empty().insert("PATH"@, p),
        None => Map::<Seq<char>, String>::empty(),
    }
}

/// The full environment of a process: nothing is inherited but `PATH` (the
/// node's own, when it has one), and the process's variables `env` are set
/// over it.
pub fn spawn_environment(path: Option<String>, env: &TextMap<String>) -> (vars: TextMap<String>)
    ensures
        vars@ == inherited_vars(path).union_prefer_right(env@),
{
    let ghost inherited = inherited_vars(path);
    let mut vars: TextMap<String> = TextMap::new();
    if let Some(p) = path {
        vars.insert("PATH".to_owned(), p);
    }
    proof {
        assert(vars@ =~= inherited);
    }
    vars.overlay(env);
    vars
}

} // verus!
