//! Output sinks that gather written chunks and hand them back joined.
use vstd::prelude::*;
use crate::text::concat;

pub mod console;
pub mod memory;

verus! {

/// A sink with two operations: take a chunk, and give back everything taken
/// since the last flush, joined in order.
pub trait Streamlet {
    /// The chunks written since the last flush, in order.
    spec fn pending(&self) -> Seq<Seq<char>>;

    /// Text that the sink keeps for later reading; writing and flushing
    /// leave it as it is.
    spec fn recorded(&self) -> Seq<char>;

    fn write(&mut self, txt: String)
        ensures
            final(self).pending() == old(self).pending().push(txt@),
            final(self).recorded() == old(self).recorded(),
    ;

    fn flush(&mut self) -> (r: String)
        ensures
            r@ == concat(old(self).pending()),
            final(self).pending() == Seq::<Seq<char>>::empty(),
            final(self).recorded() == old(self).recorded(),
    ;
}

} // verus!
