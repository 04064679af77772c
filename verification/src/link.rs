use crate::types::Error;
use vstd::prelude::*;

verus! {

/// Where an object stands with the transport's callback dispatcher.
#[derive(Debug, Clone, Copy, PartialEq, Eq, Structural)]
pub enum LinkState {
    /// Not registered yet: the transport knows nothing of the object.
    Unlinked,
    /// Registered: the transport delivers the object's callbacks.
    Linked,
    /// Given up, or never obtained: the object takes no further part.
    Released,
}

/// The registration of one core object with the transport. It is obtained
/// once and given up once, in that order.
pub struct BackendLink {
    state: LinkState,
}

impl View for BackendLink {
    type V = LinkState;

    closed spec fn view(&self) -> LinkState {
        self.state
    }
}

impl BackendLink {
    /// A link that has not been registered.
    pub fn new() -> (link: Self)
        ensures
            link@ == LinkState::Unlinked,
    {
        BackendLink { state: LinkState::Unlinked }
    }

    pub fn is_linked(&self) -> (linked: bool)
        ensures
            linked == (self@ == LinkState::Linked),
    {
        self.state == LinkState::Linked
    }

    /// Records the transport's answer to the registration. A refusal is
    /// handed on and leaves the link released: it is not tried again.
    pub fn link(&mut self, outcome: Result<(), Error>) -> (result: Result<(), Error>)
        requires
            old(self)@ == LinkState::Unlinked,
        ensures
            result == outcome,
            final(self)@ == if outcome is Ok {
                LinkState::Linked
            } else {
                LinkState::Released
            },
    {
        if outcome.is_ok() {
            self.state = LinkState::Linked;
        } else {
            self.state = LinkState::Released;
        }
        outcome
    }

    /// Records the transport's answer to the deregistration. The link is
    /// released whatever the answer; a failure is handed on.
    pub fn unlink(&mut self, outcome: Result<(), Error>) -> (result: Result<(), Error>)
        requires
            old(self)@ == LinkState::Linked,
        ensures
            result == outcome,
            final(self)@ == LinkState::Released,
    {
        self.state = LinkState::Released;
        outcome
    }
}

/// The place of the first registration among `links` that the transport
/// refused, if there is one.
pub open spec fn first_refusal(links: Seq<Result<(), Error>>) -> Option<int>
    decreases links.len(),
{
    if links.len() == 0 {
        None
    } else {
        match first_refusal(links.drop_last()) {
            Some(at) => Some(at),
            None => if links.last() is Err {
                Some(links.len() - 1)
            } else {
                None
            },
        }
    }
}

/// The first refusal is a refusal, and none comes before it; without one,
/// no registration was refused.
pub proof fn lemma_first_refusal(links: Seq<Result<(), Error>>)
    ensures
        match first_refusal(links) {
            Some(at) => 0 <= at < links.len() && links[at] is Err && forall|j: int|
                0 <= j < at ==> (#[trigger] links[j]) is Ok,
            None => forall|j: int| 0 <= j < links.len() ==> (#[trigger] links[j]) is Ok,
        },
    decreases links.len(),
{
    if links.len() > 0 {
        lemma_first_refusal(links.drop_last());
        assert forall|j: int| 0 <= j < links.len() - 1 implies links[j] == links.drop_last()[j] by {}
    }
}

/// A refusal among the first registrations is the first refusal among all
/// of them.
pub proof fn lemma_refusal_stays(front: Seq<Result<(), Error>>, links: Seq<Result<(), Error>>)
    requires
        front.len() <= links.len(),
        front == links.subrange(0, front.len() as int),
        first_refusal(front) is Some,
    ensures
        first_refusal(links) == first_refusal(front),
    decreases links.len() - front.len(),
{
    if front.len() < links.len() {
        let longer = links.subrange(0, front.len() as int + 1);
        assert(longer.drop_last() =~= front);
        lemma_refusal_stays(longer, links);
    } else {
        assert(front =~= links);
    }
}

} // verus!
