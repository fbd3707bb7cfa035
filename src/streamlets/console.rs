//! A sink for a plain console that knows nothing of cursors.
use vstd::prelude::*;
use crate::streamlets::Streamlet;
use crate::text::join;

verus! {

/// A plain console sink. Its flush returns the joined chunks, which the
/// caller prints as they are.
pub struct Console {
    chunks: Vec<String>,
}

impl Console {
    /// An empty sink.
    pub fn new() -> (r: Console)
        ensures
            r.pending() == Seq::<Seq<char>>::empty(),
    {
        let r = Console { chunks: Vec::new() };
        assert(r.pending() =~= Seq::<Seq<char>>::empty());
        r
    }
}

impl Streamlet for Console {
    closed spec fn pending(&self) -> Seq<Seq<char>> {
        self.chunks@.map_values(|c: String| c@)
    }

    closed spec fn recorded(&self) -> Seq<char> {
        Seq::empty()
    }

    fn write(&mut self, txt: String) {
        self.chunks.push(txt);
        assert(self.pending() =~= old(self).pending().push(txt@));
    }

    fn flush(&mut self) -> (r: String) {
        let output = join(&self.chunks);
        self.chunks.clear();
        assert(self.pending() =~= Seq::<Seq<char>>::empty());
        output
    }
}

} // verus!
