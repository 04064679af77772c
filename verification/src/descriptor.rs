use std::sync::Arc;
use vstd::prelude::*;
use vstd::std_specs::convert::FromSpecImpl;

verus! {

/// A descriptor as it was when the peripheral's attributes were discovered.
pub struct InnerDescriptor {
    uuid: String,
}

impl View for InnerDescriptor {
    type V = Seq<char>;

    /// The descriptor's UUID.
    closed spec fn view(&self) -> Seq<char> {
        self.uuid@
    }
}

impl Clone for InnerDescriptor {
    fn clone(&self) -> (copy: Self)
        ensures
            copy@ == self@,
    {
        InnerDescriptor { uuid: self.uuid.clone() }
    }
}

impl InnerDescriptor {
    /// A descriptor with the given UUID.
    pub fn new(uuid: String) -> (descriptor: Self)
        ensures
            descriptor@ == uuid@,
    {
        InnerDescriptor { uuid }
    }

    pub fn uuid(&self) -> (uuid: String)
        ensures
            uuid@ == self@,
    {
        self.uuid.clone()
    }
}

/// A descriptor snapshot that several holders can share.
#[derive(Clone)]
pub struct PublicDescriptor {
    inner: Arc<InnerDescriptor>,
}

impl View for PublicDescriptor {
    type V = Seq<char>;

    /// The descriptor's UUID.
    closed spec fn view(&self) -> Seq<char> {
        self.inner@
    }
}

impl PublicDescriptor {
    /// The shared form of `descriptor`.
    pub closed spec fn sharing(descriptor: InnerDescriptor) -> PublicDescriptor {
        PublicDescriptor { inner: Arc::new(descriptor) }
    }

    /// Sharing a descriptor keeps its UUID.
    pub proof fn lemma_sharing_keeps_view(descriptor: InnerDescriptor)
        ensures
            Self::sharing(descriptor)@ == descriptor@,
    {
    }

    /// Puts `descriptor` behind a shared handle.
    pub fn share(descriptor: InnerDescriptor) -> (shared: Self)
        ensures
            shared == Self::sharing(descriptor),
            shared@ == descriptor@,
    {
        PublicDescriptor { inner: Arc::new(descriptor) }
    }

    pub fn uuid(&self) -> (uuid: String)
        ensures
            uuid@ == self@,
    {
        self.inner.uuid()
    }
}

impl From<InnerDescriptor> for PublicDescriptor {
    fn from(descriptor: InnerDescriptor) -> (shared: Self) {
        PublicDescriptor::share(descriptor)
    }
}

impl FromSpecImpl<InnerDescriptor> for PublicDescriptor {
    open spec fn obeys_from_spec() -> bool {
        true
    }

    open spec fn from_spec(descriptor: InnerDescriptor) -> Self {
        PublicDescriptor::sharing(descriptor)
    }
}

} // verus!
