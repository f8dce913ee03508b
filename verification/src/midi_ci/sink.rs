//! Where outbound messages go.
use vstd::prelude::*;
use crate::midi_ci::types::Muid;

verus! {

/// Receives encoded outbound MIDI-CI messages; implemented by transports.
pub trait MessageSink {
    /// Send an encoded message (with UMP framing) to the device with the
    /// given MUID.
    fn send(&mut self, target_muid: Muid, bytes: Vec<u8>);
}

/// Call a closure sink (`FnMut::call_mut`). What the closure does is its
/// owner's business, so nothing is stated of it.
#[verifier::external_body]
fn call_closure_sink<T: FnMut(Muid, Vec<u8>)>(f: &mut T, target_muid: Muid, bytes: Vec<u8>) {
    f(target_muid, bytes)
}

impl<T: FnMut(Muid, Vec<u8>)> MessageSink for T {
    /// A closure taking the MUID and the bytes is a sink; it is called with them.
    fn send(&mut self, target_muid: Muid, bytes: Vec<u8>) {
        call_closure_sink(self, target_muid, bytes)
    }
}

/// A sink that keeps every message it is given, in order.
#[derive(Debug, Default)]
pub struct CollectingSink {
    messages: Vec<(Muid, Vec<u8>)>,
}

impl CollectingSink {
    /// The messages received so far.
    pub closed spec fn received(self) -> Seq<(Muid, Vec<u8>)> {
        self.messages@
    }

    /// An empty sink.
    pub fn new() -> (s: CollectingSink)
        ensures s.received() == Seq::<(Muid, Vec<u8>)>::empty(),
    {
        CollectingSink { messages: Vec::new() }
    }

    /// The messages received so far.
    pub fn messages(&self) -> (m: &[(Muid, Vec<u8>)])
        ensures m@ == self.received(),
    {
        self.messages.as_slice()
    }

    /// Give up the sink and return its messages.
    pub fn into_messages(self) -> (m: Vec<(Muid, Vec<u8>)>)
        ensures m@ == self.received(),
    {
        self.messages
    }

    /// Forget every message.
    pub fn clear(&mut self)
        ensures final(self).received() == Seq::<(Muid, Vec<u8>)>::empty(),
    {
        self.messages.clear();
    }
}

impl MessageSink for CollectingSink {
    fn send(&mut self, target_muid: Muid, bytes: Vec<u8>)
        ensures final(self).received() == old(self).received().push((target_muid, bytes)),
    {
        self.messages.push((target_muid, bytes));
    }
}

} // verus!
