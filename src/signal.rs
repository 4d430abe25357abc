use vstd::prelude::*;

verus! {

/// The termination signals the init process forwards and escalates with.
#[derive(Clone, Copy, Debug, PartialEq, Eq, Structural)]
pub enum Signal {
    Term,
    Int,
    Kill,
}

/// The signals that, sent to this process from outside, are broadcast to
/// every process of the group: interrupt and terminate.
pub fn forwarded_signals() -> (r: Vec<Signal>)
    ensures
        r@ == seq![Signal::Int, Signal::Term],
{
    let mut r: Vec<Signal> = Vec::new();
    r.push(Signal::Int);
    r.push(Signal::Term);
    proof {
        assert(r@ =~= seq![Signal::Int, Signal::Term]);
    }
    r
}

} // verus!
