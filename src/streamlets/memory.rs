//! A sink that keeps everything in memory.
use vstd::prelude::*;
use crate::streamlets::Streamlet;
use crate::text::join;

verus! {

/// An in-memory sink.
pub struct Memory {
    chunks: Vec<String>,
    output: String,
}

impl Memory {
    /// The chunks written since the last flush, in order.
    pub closed spec fn chunk_views(&self) -> Seq<Seq<char>> {
        self.chunks@.map_values(|c: String| c@)
    }

    pub closed spec fn output_view(&self) -> Seq<char> {
        self.output@
    }

    /// An empty sink.
    pub fn new() -> (r: Memory)
        ensures
            r.chunk_views() == Seq::<Seq<char>>::empty(),
            r.output_view() == Seq::<char>::empty(),
            r.recorded() == Seq::<char>::empty(),
    {
        let r = Memory { chunks: Vec::new(), output: String::new() };
        assert(r.chunk_views() =~= Seq::<Seq<char>>::empty());
        r
    }

    /// The sink's recorded output text. `new` leaves it empty and neither
    /// `write` nor `flush` records anything in it.
    pub fn output(&self) -> (r: &String)
        ensures
            r@ == self.output_view(),
            r@ == self.recorded(),
    {
        &self.output
    }
}

impl Streamlet for Memory {
    closed spec fn pending(&self) -> Seq<Seq<char>> {
        self.chunk_views()
    }

    closed spec fn recorded(&self) -> Seq<char> {
        self.output_view()
    }

    fn write(&mut self, txt: String) {
        self.chunks.push(txt);
        assert(self.chunk_views() =~= old(self).chunk_views().push(txt@));
    }

    fn flush(&mut self) -> (r: String) {
        let output = join(&self.chunks);
        self.chunks.clear();
        assert(self.chunk_views() =~= Seq::<Seq<char>>::empty());
        output
    }
}

} // verus!
