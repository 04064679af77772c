use crate::descriptor::{InnerDescriptor, PublicDescriptor};
use crate::types::CharacteristicCapability;
use std::sync::Arc;
use vstd::prelude::*;
use vstd::std_specs::convert::FromSpecImpl;

verus! {

/// What a characteristic snapshot holds.
pub struct CharacteristicView {
    pub uuid: Seq<char>,
    /// The UUIDs of the descriptors, in discovery order.
    pub descriptors: Seq<Seq<char>>,
    pub can_read: bool,
    pub can_write_request: bool,
    pub can_write_command: bool,
    pub can_notify: bool,
    pub can_indicate: bool,
}

/// The one-element list of `capability` if `set`, else the empty list.
pub open spec fn listed_if(set: bool, capability: CharacteristicCapability) -> Seq<
    CharacteristicCapability,
> {
    if set {
        seq![capability]
    } else {
        seq![]
    }
}

impl CharacteristicView {
    /// The capabilities that are set, in the fixed order read, write
    /// request, write command, notify, indicate.
    pub open spec fn capabilities(self) -> Seq<CharacteristicCapability> {
        listed_if(self.can_read, CharacteristicCapability::Read) + listed_if(
            self.can_write_request,
            CharacteristicCapability::WriteRequest,
        ) + listed_if(self.can_write_command, CharacteristicCapability::WriteCommand) + listed_if(
            self.can_notify,
            CharacteristicCapability::Notify,
        ) + listed_if(self.can_indicate, CharacteristicCapability::Indicate)
    }

    /// Whether `capability` is set.
    pub open spec fn allows(self, capability: CharacteristicCapability) -> bool {
        match capability {
            CharacteristicCapability::Read => self.can_read,
            CharacteristicCapability::WriteRequest => self.can_write_request,
            CharacteristicCapability::WriteCommand => self.can_write_command,
            CharacteristicCapability::Notify => self.can_notify,
            CharacteristicCapability::Indicate => self.can_indicate,
        }
    }
}

/// The UUIDs of a list of descriptors.
pub open spec fn descriptor_views(descriptors: Seq<InnerDescriptor>) -> Seq<Seq<char>> {
    descriptors.map_values(|d: InnerDescriptor| d@)
}

/// The UUIDs of a list of shared descriptors.
pub open spec fn public_descriptor_views(descriptors: Seq<PublicDescriptor>) -> Seq<Seq<char>> {
    descriptors.map_values(|d: PublicDescriptor| d@)
}

/// A characteristic as it was when the peripheral's attributes were
/// discovered, with its descriptors.
pub struct InnerCharacteristic {
    uuid: String,
    descriptors: Vec<InnerDescriptor>,
    can_read: bool,
    can_write_request: bool,
    can_write_command: bool,
    can_notify: bool,
    can_indicate: bool,
}

impl View for InnerCharacteristic {
    type V = CharacteristicView;

    closed spec fn view(&self) -> CharacteristicView {
        CharacteristicView {
            uuid: self.uuid@,
            descriptors: descriptor_views(self.descriptors@),
            can_read: self.can_read,
            can_write_request: self.can_write_request,
            can_write_command: self.can_write_command,
            can_notify: self.can_notify,
            can_indicate: self.can_indicate,
        }
    }
}

/// A copy of `descriptors` that shares nothing with it.
pub fn copy_descriptors(descriptors: &Vec<InnerDescriptor>) -> (copy: Vec<InnerDescriptor>)
    ensures
        descriptor_views(copy@) == descriptor_views(descriptors@),
{
    let mut copy: Vec<InnerDescriptor> = Vec::new();
    let mut i: usize = 0;
    while i < descriptors.len()
        invariant
            i <= descriptors.len(),
            copy.len() == i,
            forall|k: int| 0 <= k < i ==> copy[k]@ == descriptors[k]@,
        decreases descriptors.len() - i,
    {
        copy.push(descriptors[i].clone());
        i += 1;
    }
    assert(descriptor_views(copy@) =~= descriptor_views(descriptors@));
    copy
}

impl Clone for InnerCharacteristic {
    fn clone(&self) -> (copy: Self)
        ensures
            copy@ == self@,
    {
        InnerCharacteristic {
            uuid: self.uuid.clone(),
            descriptors: copy_descriptors(&self.descriptors),
            can_read: self.can_read,
            can_write_request: self.can_write_request,
            can_write_command: self.can_write_command,
            can_notify: self.can_notify,
            can_indicate: self.can_indicate,
        }
    }
}

impl InnerCharacteristic {
    /// A characteristic with the given UUID, descriptors and capability
    /// flags.
    pub fn new(
        uuid: String,
        descriptors: Vec<InnerDescriptor>,
        can_read: bool,
        can_write_request: bool,
        can_write_command: bool,
        can_notify: bool,
        can_indicate: bool,
    ) -> (characteristic: Self)
        ensures
            characteristic@ == (CharacteristicView {
                uuid: uuid@,
                descriptors: descriptor_views(descriptors@),
                can_read,
                can_write_request,
                can_write_command,
                can_notify,
                can_indicate,
            }),
    {
        InnerCharacteristic {
            uuid,
            descriptors,
            can_read,
            can_write_request,
            can_write_command,
            can_notify,
            can_indicate,
        }
    }

    pub fn uuid(&self) -> (uuid: String)
        ensures
            uuid@ == self@.uuid,
    {
        self.uuid.clone()
    }

    /// The descriptors, each behind a shared handle of its own, in
    /// discovery order.
    pub fn descriptors(&self) -> (descriptors: Vec<PublicDescriptor>)
        ensures
            public_descriptor_views(descriptors@) == self@.descriptors,
    {
        let mut descriptors: Vec<PublicDescriptor> = Vec::new();
        let mut i: usize = 0;
        while i < self.descriptors.len()
            invariant
                i <= self.descriptors.len(),
                descriptors.len() == i,
                forall|k: int| 0 <= k < i ==> descriptors[k]@ == self.descriptors[k]@,
            decreases self.descriptors.len() - i,
        {
            descriptors.push(PublicDescriptor::share(self.descriptors[i].clone()));
            i += 1;
        }
        assert(public_descriptor_views(descriptors@) =~= self@.descriptors);
        descriptors
    }

    /// The capabilities that are set, in the fixed order read, write
    /// request, write command, notify, indicate.
    pub fn capabilities(&self) -> (capabilities: Vec<CharacteristicCapability>)
        ensures
            capabilities@ == self@.capabilities(),
    {
        let mut capabilities: Vec<CharacteristicCapability> = Vec::new();
        if self.can_read {
            capabilities.push(CharacteristicCapability::Read);
        }
        if self.can_write_request {
            capabilities.push(CharacteristicCapability::WriteRequest);
        }
        if self.can_write_command {
            capabilities.push(CharacteristicCapability::WriteCommand);
        }
        if self.can_notify {
            capabilities.push(CharacteristicCapability::Notify);
        }
        if self.can_indicate {
            capabilities.push(CharacteristicCapability::Indicate);
        }
        assert(capabilities@ =~= self@.capabilities());
        capabilities
    }

    pub fn can_read(&self) -> (allowed: bool)
        ensures
            allowed == self@.can_read,
    {
        self.can_read
    }

    pub fn can_write_request(&self) -> (allowed: bool)
        ensures
            allowed == self@.can_write_request,
    {
        self.can_write_request
    }

    pub fn can_write_command(&self) -> (allowed: bool)
        ensures
            allowed == self@.can_write_command,
    {
        self.can_write_command
    }

    pub fn can_notify(&self) -> (allowed: bool)
        ensures
            allowed == self@.can_notify,
    {
        self.can_notify
    }

    pub fn can_indicate(&self) -> (allowed: bool)
        ensures
            allowed == self@.can_indicate,
    {
        self.can_indicate
    }
}

proof fn lemma_joined<A>(front: Seq<A>, back: Seq<A>)
    requires
        front.no_duplicates(),
        back.no_duplicates(),
        forall|x: A| !(front.contains(x) && back.contains(x)),
    ensures
        (front + back).no_duplicates(),
        forall|x: A| (front + back).contains(x) <==> front.contains(x) || back.contains(x),
{
    let joined = front + back;
    assert forall|x: A| joined.contains(x) <==> front.contains(x) || back.contains(x) by {
        if front.contains(x) {
            let i = choose|i: int| 0 <= i < front.len() && front[i] == x;
            assert(joined[i] == x);
        }
        if back.contains(x) {
            let j = choose|j: int| 0 <= j < back.len() && back[j] == x;
            assert(joined[front.len() + j] == x);
        }
        if joined.contains(x) {
            let k = choose|k: int| 0 <= k < joined.len() && joined[k] == x;
            if k < front.len() {
                assert(front[k] == x);
            } else {
                assert(back[k - front.len()] == x);
            }
        }
    }
    assert forall|i: int, j: int| 0 <= i < front.len() && 0 <= j < back.len() implies front[i]
        != back[j] by {
        assert(front.contains(front[i]));
        assert(back.contains(back[j]));
    }
    vstd::seq_lib::lemma_no_dup_in_concat(front, back);
}

proof fn lemma_listed_if(set: bool, capability: CharacteristicCapability)
    ensures
        listed_if(set, capability).no_duplicates(),
        forall|x: CharacteristicCapability|
            listed_if(set, capability).contains(x) <==> set && x == capability,
{
    let part = listed_if(set, capability);
    assert forall|x: CharacteristicCapability| part.contains(x) <==> set && x == capability by {
        if set && x == capability {
            assert(part[0] == x);
        }
    }
}

/// A capability is listed exactly when its flag is set, and none is listed
/// twice.
pub proof fn lemma_capabilities_match_flags(
    characteristic: CharacteristicView,
    capability: CharacteristicCapability,
)
    ensures
        characteristic.capabilities().contains(capability) <==> characteristic.allows(capability),
        characteristic.capabilities().no_duplicates(),
{
    let read = listed_if(characteristic.can_read, CharacteristicCapability::Read);
    let write_request = listed_if(
        characteristic.can_write_request,
        CharacteristicCapability::WriteRequest,
    );
    let write_command = listed_if(
        characteristic.can_write_command,
        CharacteristicCapability::WriteCommand,
    );
    let notify = listed_if(characteristic.can_notify, CharacteristicCapability::Notify);
    let indicate = listed_if(characteristic.can_indicate, CharacteristicCapability::Indicate);
    lemma_listed_if(characteristic.can_read, CharacteristicCapability::Read);
    lemma_listed_if(characteristic.can_write_request, CharacteristicCapability::WriteRequest);
    lemma_listed_if(characteristic.can_write_command, CharacteristicCapability::WriteCommand);
    lemma_listed_if(characteristic.can_notify, CharacteristicCapability::Notify);
    lemma_listed_if(characteristic.can_indicate, CharacteristicCapability::Indicate);
    lemma_joined(read, write_request);
    lemma_joined(read + write_request, write_command);
    lemma_joined(read + write_request + write_command, notify);
    lemma_joined(read + write_request + write_command + notify, indicate);
    let listed = characteristic.capabilities();
    assert(listed == read + write_request + write_command + notify + indicate);
    assert(listed.contains(capability) <==> (read + write_request + write_command
        + notify).contains(capability) || indicate.contains(capability));
    assert((read + write_request + write_command + notify).contains(capability) <==> (read
        + write_request + write_command).contains(capability) || notify.contains(capability));
    assert((read + write_request + write_command).contains(capability) <==> (read
        + write_request).contains(capability) || write_command.contains(capability));
    assert((read + write_request).contains(capability) <==> read.contains(capability)
        || write_request.contains(capability));
}

/// A characteristic snapshot that several holders can share.
#[derive(Clone)]
pub struct Characteristic {
    inner: Arc<InnerCharacteristic>,
}

impl View for Characteristic {
    type V = CharacteristicView;

    closed spec fn view(&self) -> CharacteristicView {
        self.inner@
    }
}

impl Characteristic {
    /// The shared form of `characteristic`.
    pub closed spec fn sharing(characteristic: InnerCharacteristic) -> Characteristic {
        Characteristic { inner: Arc::new(characteristic) }
    }

    /// Sharing a characteristic keeps what it holds.
    pub proof fn lemma_sharing_keeps_view(characteristic: InnerCharacteristic)
        ensures
            Self::sharing(characteristic)@ == characteristic@,
    {
    }

    /// Puts `characteristic` behind a shared handle.
    pub fn share(characteristic: InnerCharacteristic) -> (shared: Self)
        ensures
            shared == Self::sharing(characteristic),
            shared@ == characteristic@,
    {
        Characteristic { inner: Arc::new(characteristic) }
    }

    pub fn uuid(&self) -> (uuid: String)
        ensures
            uuid@ == self@.uuid,
    {
        self.inner.uuid()
    }

    /// The descriptors, each behind a shared handle of its own, in
    /// discovery order.
    pub fn descriptors(&self) -> (descriptors: Vec<PublicDescriptor>)
        ensures
            public_descriptor_views(descriptors@) == self@.descriptors,
    {
        self.inner.descriptors()
    }

    /// The capabilities that are set, in the fixed order read, write
    /// request, write command, notify, indicate.
    pub fn capabilities(&self) -> (capabilities: Vec<CharacteristicCapability>)
        ensures
            capabilities@ == self@.capabilities(),
    {
        self.inner.capabilities()
    }

    pub fn can_read(&self) -> (allowed: bool)
        ensures
            allowed == self@.can_read,
    {
        self.inner.can_read()
    }

    pub fn can_write_request(&self) -> (allowed: bool)
        ensures
            allowed == self@.can_write_request,
    {
        self.inner.can_write_request()
    }

    pub fn can_write_command(&self) -> (allowed: bool)
        ensures
            allowed == self@.can_write_command,
    {
        self.inner.can_write_command()
    }

    pub fn can_notify(&self) -> (allowed: bool)
        ensures
            allowed == self@.can_notify,
    {
        self.inner.can_notify()
    }

    pub fn can_indicate(&self) -> (allowed: bool)
        ensures
            allowed == self@.can_indicate,
    {
        self.inner.can_indicate()
    }
}

impl From<InnerCharacteristic> for Characteristic {
    fn from(characteristic: InnerCharacteristic) -> (shared: Self) {
        Characteristic::share(characteristic)
    }
}

impl FromSpecImpl<InnerCharacteristic> for Characteristic {
    open spec fn obeys_from_spec() -> bool {
        true
    }

    open spec fn from_spec(characteristic: InnerCharacteristic) -> Self {
        Characteristic::sharing(characteristic)
    }
}

} // verus!
