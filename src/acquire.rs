//! Taking listening sockets inherited from a supervising process.
//!
//! Each inherited descriptor is probed first as a TCP listener and, when it is
//! not one, as a UDP socket; one that is neither is passed over. The probing
//! itself happens outside: [`Acquisition::next_step`] names the next probe and
//! [`Acquisition::record_probe`] takes its result.

use vstd::prelude::*;

verus! {

/// The kind of an acquired socket.
#[derive(Clone, Copy, PartialEq, Eq, Structural, Debug)]
pub enum SocketKind {
    Tcp,
    Udp,
}

/// An inherited descriptor, by its position, and what it was found to be.
#[derive(Clone, Copy, PartialEq, Eq, Structural, Debug)]
pub struct InheritedSocket {
    pub index: usize,
    pub kind: SocketKind,
}

/// What to do next while acquiring.
#[derive(Clone, Copy, PartialEq, Eq, Structural, Debug)]
pub enum AcquireStep {
    /// Try to take the descriptor at `index` as a socket of `kind`.
    Probe { index: usize, kind: SocketKind },
    /// Every descriptor has been probed.
    Done,
}

/// Progress through the inherited descriptors.
pub struct Acquisition {
    count: usize,
    next: usize,
    probing: SocketKind,
    taken: Vec<InheritedSocket>,
}

impl Acquisition {
    /// How many descriptors were inherited.
    pub closed spec fn count_spec(&self) -> nat {
        self.count as nat
    }

    /// The position of the descriptor being probed.
    pub closed spec fn next_spec(&self) -> nat {
        self.next as nat
    }

    /// The kind that the descriptor at `next_spec` is probed as.
    pub closed spec fn probing_spec(&self) -> SocketKind {
        self.probing
    }

    /// The sockets taken so far, in descriptor order.
    pub closed spec fn taken_spec(&self) -> Seq<InheritedSocket> {
        self.taken@
    }

    /// Probes still to make at most: two for each descriptor not yet reached.
    pub open spec fn remaining(&self) -> nat {
        if self.probing_spec() == SocketKind::Udp {
            (2 * (self.count_spec() - self.next_spec()) - 1) as nat
        } else {
            (2 * (self.count_spec() - self.next_spec())) as nat
        }
    }

    /// Descriptors are probed in order, each taken at most once, only the ones
    /// already passed.
    pub closed spec fn wf(&self) -> bool {
        &&& self.next <= self.count
        &&& self.probing == SocketKind::Udp ==> self.next < self.count
        &&& self.taken@.len() <= self.next
        &&& forall|i: int| 0 <= i < self.taken@.len() ==> #[trigger] self.taken@[i].index < self.next
        &&& forall|i: int, j: int|
            0 <= i < j < self.taken@.len() ==> #[trigger] self.taken@[i].index
                < #[trigger] self.taken@[j].index
    }

    /// Starts on `count` inherited descriptors.
    pub fn inherited(count: usize) -> (r: Acquisition)
        ensures
            r.wf(),
            r.count_spec() == count,
            r.next_spec() == 0,
            r.probing_spec() == SocketKind::Tcp,
            r.taken_spec() == Seq::<InheritedSocket>::empty(),
    {
        Acquisition { count, next: 0, probing: SocketKind::Tcp, taken: Vec::new() }
    }

    /// The next probe to make, or `Done` once every descriptor has been probed.
    pub fn next_step(&self) -> (r: AcquireStep)
        requires
            self.wf(),
        ensures
            self.next_spec() < self.count_spec() ==> r == (AcquireStep::Probe {
                index: self.next_spec() as usize,
                kind: self.probing_spec(),
            }),
            self.next_spec() >= self.count_spec() ==> r == AcquireStep::Done,
    {
        if self.next < self.count {
            AcquireStep::Probe { index: self.next, kind: self.probing }
        } else {
            AcquireStep::Done
        }
    }

    /// Whether every descriptor has been probed.
    pub fn is_done(&self) -> (r: bool)
        requires
            self.wf(),
        ensures
            r == (self.next_spec() >= self.count_spec()),
    {
        self.next >= self.count
    }

    /// Takes the result of the probe that `next_step` named: whether the
    /// descriptor could be taken as that kind of socket. A taken descriptor is
    /// kept and the next one is probed as TCP; a descriptor that is no TCP
    /// listener is probed as UDP; one that is neither is passed over.
    pub fn record_probe(&mut self, taken: bool)
        requires
            old(self).wf(),
            old(self).next_spec() < old(self).count_spec(),
        ensures
            final(self).wf(),
            final(self).count_spec() == old(self).count_spec(),
            final(self).remaining() < old(self).remaining(),
            taken ==> final(self).taken_spec() == old(self).taken_spec().push(
                InheritedSocket {
                    index: old(self).next_spec() as usize,
                    kind: old(self).probing_spec(),
                },
            ),
            !taken ==> final(self).taken_spec() == old(self).taken_spec(),
            taken || old(self).probing_spec() == SocketKind::Udp ==> {
                &&& final(self).next_spec() == old(self).next_spec() + 1
                &&& final(self).probing_spec() == SocketKind::Tcp
            },
            !taken && old(self).probing_spec() == SocketKind::Tcp ==> {
                &&& final(self).next_spec() == old(self).next_spec()
                &&& final(self).probing_spec() == SocketKind::Udp
            },
    {
        if taken {
            self.taken.push(InheritedSocket { index: self.next, kind: self.probing });
            self.next = self.next + 1;
            self.probing = SocketKind::Tcp;
        } else {
            match self.probing {
                SocketKind::Tcp => {
                    self.probing = SocketKind::Udp;
                },
                SocketKind::Udp => {
                    self.next = self.next + 1;
                    self.probing = SocketKind::Tcp;
                },
            }
        }
    }

    /// The sockets taken, in descriptor order.
    pub fn into_listeners(self) -> (r: Vec<InheritedSocket>)
        ensures
            r@ == self.taken_spec(),
    {
        self.taken
    }
}

/// However the probes turn out, at most one socket is taken per inherited
/// descriptor, each from a descriptor that exists, in increasing descriptor order.
pub proof fn lemma_taken_sockets(a: &Acquisition)
    requires
        a.wf(),
    ensures
        a.taken_spec().len() <= a.count_spec(),
        forall|i: int|
            0 <= i < a.taken_spec().len() ==> #[trigger] a.taken_spec()[i].index < a.count_spec(),
        forall|i: int, j: int|
            0 <= i < j < a.taken_spec().len() ==> #[trigger] a.taken_spec()[i].index
                < #[trigger] a.taken_spec()[j].index,
{
}

} // verus!
