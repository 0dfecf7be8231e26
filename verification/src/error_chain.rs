//! Errors with their causes, flattened into one message.
use vstd::prelude::*;
use vstd::string::*;

verus! {

/// An error: its own message, then the messages of its causes from the nearest on.
pub struct ErrorChain {
    pub message: String,
    pub sources: Vec<String>,
}

/// The messages of a chain, joined by colons.
pub open spec fn chain_text(head: Seq<char>, sources: Seq<String>) -> Seq<char>
    decreases sources.len(),
{
    if sources.len() == 0 {
        head
    } else {
        chain_text(head, sources.drop_last()) + ": "@ + sources.last()@
    }
}

impl View for ErrorChain {
    type V = Seq<char>;

    open spec fn view(&self) -> Seq<char> {
        chain_text(self.message@, self.sources@)
    }
}

/// Flattens an error and its causes into one message: the outermost message is often only that a
/// request failed, with the real cause one or two links down.
pub fn flatten(e: &ErrorChain) -> (r: String)
    ensures
        r@ == e@,
{
    let mut msg = e.message.clone();
    let mut i: usize = 0;
    assert(e.sources@.take(0) =~= Seq::<String>::empty());
    while i < e.sources.len()
        invariant
            i <= e.sources@.len(),
            msg@ == chain_text(e.message@, e.sources@.take(i as int)),
        decreases e.sources@.len() - i,
    {
        msg.append(": ");
        msg.append(e.sources[i].as_str());
        assert(e.sources@.take(i + 1).drop_last() =~= e.sources@.take(i as int));
        i += 1;
    }
    assert(e.sources@.take(i as int) =~= e.sources@);
    msg
}

} // verus!
