//! User-facing odds and ends: the built-in chat messages and a labelled
//! value holder shared pieces of user state are kept in.

use vstd::prelude::*;
use vstd::string::StringSliceAdditionalSpecFns;

verus! {

/// The sixteen built-in chat messages, in their menu order.
pub open spec fn spec_default_chat_messages() -> Seq<Seq<char>> {
    seq![
        ("ggs")@,
        ("one more")@,
        ("brb")@,
        ("good luck")@,
        ("well played")@,
        ("that was fun")@,
        ("thanks")@,
        ("too good")@,
        ("sorry")@,
        ("my b")@,
        ("lol")@,
        ("wow")@,
        ("gotta go")@,
        ("one sec")@,
        ("let's play again later")@,
        ("bad connection")@,
    ]
}

/// The default chat messages, as owned strings.
pub fn default() -> (r: Vec<String>)
    ensures
        r@.len() == 16,
        forall|i: int| 0 <= i < 16 ==> #[trigger] r@[i]@ == spec_default_chat_messages()[i],
{
    let mut r: Vec<String> = Vec::new();
    r.push(("ggs").to_owned());
    r.push(("one more").to_owned());
    r.push(("brb").to_owned());
    r.push(("good luck").to_owned());
    r.push(("well played").to_owned());
    r.push(("that was fun").to_owned());
    r.push(("thanks").to_owned());
    r.push(("too good").to_owned());
    r.push(("sorry").to_owned());
    r.push(("my b").to_owned());
    r.push(("lol").to_owned());
    r.push(("wow").to_owned());
    r.push(("gotta go").to_owned());
    r.push(("one sec").to_owned());
    r.push(("let's play again later").to_owned());
    r.push(("bad connection").to_owned());
    r
}

/// A labelled holder for a piece of shared state; the label names the
/// holder in diagnostics.
#[derive(Clone, Copy, Debug)]
pub struct ThreadSafeWrapper<T> {
    debug_label: &'static str,
    inner: T,
}

impl<T> ThreadSafeWrapper<T> {
    /// The held value.
    pub closed spec fn spec_inner(self) -> T {
        self.inner
    }

    /// The holder's label.
    pub closed spec fn spec_label(self) -> &'static str {
        self.debug_label
    }

    /// Creates and returns a wrapped `T`.
    pub fn new(debug_label: &'static str, inner: T) -> (r: Self)
        ensures
            r.spec_inner() == inner,
            r.spec_label() == debug_label,
    {
        ThreadSafeWrapper { debug_label, inner }
    }

    /// Replaces the held value.
    pub fn set(&mut self, inner: T)
        ensures
            final(self).spec_inner() == inner,
            final(self).spec_label() == old(self).spec_label(),
    {
        self.inner = inner;
    }

    /// Reads the held value.
    pub fn get(&self) -> (r: &T)
        ensures
            *r == self.spec_inner(),
    {
        &self.inner
    }

    /// Rewrites the held value through the given transformation.
    pub fn with_mut<F: FnOnce(&T) -> T>(&mut self, handler: F)
        requires
            call_requires(handler, (&old(self).spec_inner(),)),
        ensures
            call_ensures(handler, (&old(self).spec_inner(),), final(self).spec_inner()),
            final(self).spec_label() == old(self).spec_label(),
    {
        let new_inner = handler(&self.inner);
        self.inner = new_inner;
    }
}

} // verus!
