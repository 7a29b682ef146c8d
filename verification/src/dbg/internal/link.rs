//! A link to a device interface, under a name that the user may change.

use vstd::prelude::*;
use crossbeam_channel::{Receiver, Sender};

verus! {

#[verifier::external_type_specification]
#[verifier::external_body]
#[verifier::reject_recursive_types(T)]
pub struct ExSender<T>(crossbeam_channel::Sender<T>);

#[verifier::external_type_specification]
#[verifier::external_body]
#[verifier::reject_recursive_types(T)]
pub struct ExReceiver<T>(crossbeam_channel::Receiver<T>);

/// A link to a device interface: the two ends of the channels to the code
/// that drives the interface, with an identifier and a name.
pub struct NamedLink {
    id: usize,
    name: String,
    send: Sender<Vec<u8>>,
    recv: Receiver<Vec<u8>>,
}

impl NamedLink {
    /// The identifier of the link.
    pub closed spec fn id(&self) -> usize {
        self.id
    }

    /// The name of the link.
    pub closed spec fn name(&self) -> Seq<char> {
        self.name@
    }

    /// The end that bytes for the device are handed to.
    pub closed spec fn outgoing(&self) -> Sender<Vec<u8>> {
        self.send
    }

    /// The end that bytes from the device arrive at.
    pub closed spec fn incoming(&self) -> Receiver<Vec<u8>> {
        self.recv
    }

    /// A link with the identifier `id` and the name `name` over the two
    /// channel ends.
    pub fn new(id: usize, name: String, send: Sender<Vec<u8>>, recv: Receiver<Vec<u8>>) -> (link:
        Self)
        ensures
            link.id() == id,
            link.name() == name@,
            link.outgoing() == send,
            link.incoming() == recv,
    {
        Self { id, name, send, recv }
    }

    /// Gives the link another name.
    pub fn rename(&mut self, name: String)
        ensures
            final(self).name() == name@,
            final(self).id() == old(self).id(),
            final(self).outgoing() == old(self).outgoing(),
            final(self).incoming() == old(self).incoming(),
    {
        self.name = name;
    }

    /// Whether `id` is the identifier of the link.
    pub fn identify(&self, id: usize) -> (yes: bool)
        ensures
            yes == (self.id() == id),
    {
        self.id == id
    }

    /// The name of the link.
    pub fn label(&self) -> (name: &String)
        ensures
            name@ == self.name(),
    {
        &self.name
    }

    /// The end that bytes for the device are handed to.
    pub fn sender(&self) -> (end: &Sender<Vec<u8>>)
        ensures
            *end == self.outgoing(),
    {
        &self.send
    }

    /// The end that bytes from the device arrive at.
    pub fn receiver(&self) -> (end: &Receiver<Vec<u8>>)
        ensures
            *end == self.incoming(),
    {
        &self.recv
    }
}

} // verus!
