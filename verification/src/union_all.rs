//! How `UNION ALL` registers the pipelines of its right input.
//!
//! The right input is built as a pipeline of its own, which must pull its
//! data; it feeds the left input's pipeline through a channel, so it is run
//! alongside it: its finished main pipeline is registered first, then the
//! source pipelines it depends on, in their order.

use vstd::prelude::*;

verus! {

/// Registers the right input's pipelines after those already registered.
/// `pulling` is what asking the right input's main pipeline whether it pulls
/// its data gave; an error there is handed back and nothing is registered.
pub fn expand_union_all<P, E>(pipelines: &mut Vec<P>, right_main: P, right_sources: Vec<P>, pulling: Result<bool, E>) -> (r: Result<(), E>)
    requires
        pulling matches Ok(b) ==> b,
    ensures
        match pulling {
            Ok(_) => {
                &&& r is Ok
                &&& final(pipelines)@ == old(pipelines)@.push(right_main) + right_sources@
            },
            Err(e) => {
                &&& r == Err::<(), E>(e)
                &&& final(pipelines)@ == old(pipelines)@
            },
        },
{
    match pulling {
        Err(e) => Err(e),
        Ok(_) => {
            pipelines.push(right_main);
            let mut sources = right_sources;
            let ghost before = pipelines@;
            pipelines.append(&mut sources);
            assert(pipelines@ =~= before + right_sources@);
            Ok(())
        },
    }
}

} // verus!
