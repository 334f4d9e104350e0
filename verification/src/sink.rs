//! The backing store's contents as the single writer builds them: an
//! append-only sequence of records in exact arrival order. The driving
//! loop mirrors every appended record into the temporary file; the dump
//! mode reads the whole accumulated text back.

use vstd::prelude::*;

verus! {

/// What a sequence of records reads as when laid out end to end.
pub open spec fn store_text(records: Seq<Seq<char>>) -> Seq<char> {
    records.flatten()
}

/// The append-only buffer over the backing store. Its view is the
/// sequence of records appended so far, oldest first.
pub struct SinkBuffer {
    records: Vec<String>,
}

impl View for SinkBuffer {
    type V = Seq<Seq<char>>;

    closed spec fn view(&self) -> Seq<Seq<char>> {
        self.records.deep_view()
    }
}

impl SinkBuffer {
    /// An empty store.
    pub fn new() -> (r: SinkBuffer)
        ensures
            r@ == Seq::<Seq<char>>::empty(),
    {
        let r = SinkBuffer { records: Vec::new() };
        proof {
            assert(r@ =~= Seq::<Seq<char>>::empty());
        }
        r
    }

    /// Appends one record after everything written before: no loss, no
    /// reordering, no duplication.
    pub fn append(&mut self, record: String)
        ensures
            final(self)@ == old(self)@.push(record@),
    {
        let ghost before = self@;
        let ghost rv = record@;
        self.records.push(record);
        proof {
            assert(self@ =~= before.push(rv));
        }
    }

    /// How many records stand in the store.
    pub fn len(&self) -> (r: usize)
        ensures
            r == self@.len(),
    {
        self.records.len()
    }

    /// The record at a given position, oldest first.
    pub fn record_at(&self, i: usize) -> (r: &String)
        requires
            i < self@.len(),
        ensures
            r@ == self@[i as int],
    {
        &self.records[i]
    }

    /// The whole accumulated text, all records in order: what a dump of
    /// the backing store prints.
    pub fn contents(&self) -> (r: String)
        ensures
            r@ == store_text(self@),
    {
        let mut out = String::new();
        let mut i: usize = 0;
        proof {
            assert(self@.take(0) =~= Seq::<Seq<char>>::empty());
            assert(Seq::<Seq<char>>::empty().flatten() =~= Seq::<char>::empty());
        }
        while i < self.records.len()
            invariant
                i <= self@.len(),
                self@.len() == self.records.len(),
                forall|j: int| 0 <= j < self@.len() ==> self@[j] == self.records[j]@,
                out@ == store_text(self@.take(i as int)),
            decreases self@.len() - i,
        {
            let ghost prefix = self@.take(i as int);
            out.append(self.records[i].as_str());
            proof {
                assert(self@.take(i + 1) =~= prefix.push(self@[i as int]));
                prefix.lemma_flatten_push(self@[i as int]);
            }
            i = i + 1;
        }
        proof {
            assert(self@.take(self@.len() as int) =~= self@);
        }
        out
    }
}

} // verus!
