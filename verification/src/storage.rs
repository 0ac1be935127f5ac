use vstd::prelude::*;

use crate::error::ErrorKind;
use crate::render::{joined_items, push_decimal, storage_text};

verus! {

/// An ordered, mutable container of item identifiers, owned by one entity.
///
/// Duplicates are permitted and insertion order is kept. Storage has no
/// locking of its own: callers are expected to hold the owning entity's
/// logical lock before mutating it.
pub struct Storage {
    pub items: Vec<u64>,
}

impl View for Storage {
    type V = Seq<u64>;

    open spec fn view(&self) -> Seq<u64> {
        self.items@
    }
}

impl Storage {
    /// An empty storage.
    pub fn new() -> (s: Storage)
        ensures
            s@ == Seq::<u64>::empty(),
    {
        Storage { items: Vec::new() }
    }

    /// Renders the contents as a deterministic list literal, `[1, 3]`.
    ///
    /// A presentation concern only; in this core it always succeeds.
    pub fn render(&self) -> (r: Result<String, ErrorKind>)
        ensures
            r matches Ok(s) && s@ == storage_text(self@),
    {
        let mut out = String::from_str("[");
        proof {
            assert(out@ =~= "["@ + joined_items(self.items@.take(0)));
        }
        let mut i: usize = 0;
        while i < self.items.len()
            invariant
                i <= self.items.len(),
                out@ == "["@ + joined_items(self.items@.take(i as int)),
            decreases self.items.len() - i,
        {
            if i > 0 {
                out.append(", ");
            }
            push_decimal(&mut out, self.items[i]);
            proof {
                let done = self.items@.take(i as int + 1);
                assert(done.drop_last() =~= self.items@.take(i as int));
                assert(done.last() == self.items@[i as int]);
                if i == 0 {
                    assert(done =~= seq![self.items@[0]]);
                }
                assert(out@ =~= "["@ + joined_items(done));
            }
            i = i + 1;
        }
        proof {
            assert(self.items@.take(self.items.len() as int) =~= self.items@);
        }
        out.append("]");
        proof {
            assert(out@ =~= storage_text(self@));
        }
        Ok(out)
    }
}

} // verus!
