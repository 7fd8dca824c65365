//! Lifecycle notifications as a queue of messages.  The producer records an
//! occurrence and goes on at once; a consumer drains the queue when it
//! likes.  Recording never affects control flow, so a misbehaving consumer
//! cannot stall a download.

use vstd::prelude::*;

verus! {

/// A queue of event messages, one `String` per occurrence.  Its view is
/// the sequence of recorded messages, oldest first.
#[derive(Debug)]
pub struct Event {
    entries: Vec<String>,
}

impl View for Event {
    type V = Seq<Seq<char>>;

    closed spec fn view(&self) -> Seq<Seq<char>> {
        self.entries.deep_view()
    }
}

impl Event {
    /// An empty event queue.
    pub fn new() -> (r: Event)
        ensures
            r@ == Seq::<Seq<char>>::empty(),
    {
        let entries: Vec<String> = Vec::new();
        proof {
            assert(entries.deep_view() =~= Seq::<Seq<char>>::empty());
        }
        Event { entries }
    }

    /// Records one occurrence.
    pub fn call(&mut self, arg: String)
        ensures
            final(self)@ == old(self)@.push(arg@),
    {
        let ghost prev = self.entries.deep_view();
        let ghost av = arg@;
        self.entries.push(arg);
        proof {
            assert(self.entries.deep_view() =~= prev.push(av));
        }
    }

    /// Hands every recorded occurrence out, in order, and empties the queue.
    pub fn take_entries(&mut self) -> (v: Vec<String>)
        ensures
            v.deep_view() == old(self)@,
            final(self)@ == Seq::<Seq<char>>::empty(),
    {
        let v = self.entries.clone();
        self.entries.clear();
        proof {
            assert(self.entries.deep_view() =~= Seq::<Seq<char>>::empty());
            assert(v.deep_view() =~= old(self)@);
        }
        v
    }
}

impl Default for Event {
    fn default() -> (r: Event)
        ensures
            r@ == Seq::<Seq<char>>::empty(),
    {
        Event::new()
    }
}

} // verus!
