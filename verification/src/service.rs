use crate::characteristic::{Characteristic, CharacteristicView, InnerCharacteristic};
use std::sync::Arc;
use vstd::prelude::*;
use vstd::std_specs::convert::FromSpecImpl;

verus! {

/// What a service snapshot holds.
pub struct ServiceView {
    pub uuid: Seq<char>,
    /// The raw advertisement data of the service.
    pub data: Seq<u8>,
    /// The characteristics, in discovery order.
    pub characteristics: Seq<CharacteristicView>,
}

/// What a list of characteristics holds.
pub open spec fn characteristic_views(characteristics: Seq<InnerCharacteristic>) -> Seq<
    CharacteristicView,
> {
    characteristics.map_values(|c: InnerCharacteristic| c@)
}

/// What a list of shared characteristics holds.
pub open spec fn public_characteristic_views(characteristics: Seq<Characteristic>) -> Seq<
    CharacteristicView,
> {
    characteristics.map_values(|c: Characteristic| c@)
}

/// What a list of services holds.
pub open spec fn service_views(services: Seq<InnerService>) -> Seq<ServiceView> {
    services.map_values(|s: InnerService| s@)
}

/// What a list of shared services holds.
pub open spec fn public_service_views(services: Seq<PublicService>) -> Seq<ServiceView> {
    services.map_values(|s: PublicService| s@)
}

/// A copy of `bytes` that shares nothing with it.
pub fn copy_bytes(bytes: &Vec<u8>) -> (copy: Vec<u8>)
    ensures
        copy@ == bytes@,
{
    let mut copy: Vec<u8> = Vec::new();
    let mut i: usize = 0;
    while i < bytes.len()
        invariant
            i <= bytes.len(),
            copy@ == bytes@.subrange(0, i as int),
        decreases bytes.len() - i,
    {
        copy.push(bytes[i]);
        assert(copy@ =~= bytes@.subrange(0, i + 1));
        i += 1;
    }
    assert(copy@ =~= bytes@);
    copy
}

/// A copy of `characteristics` that shares nothing with it.
pub fn copy_characteristics(characteristics: &Vec<InnerCharacteristic>) -> (copy: Vec<
    InnerCharacteristic,
>)
    ensures
        characteristic_views(copy@) == characteristic_views(characteristics@),
{
    let mut copy: Vec<InnerCharacteristic> = Vec::new();
    let mut i: usize = 0;
    while i < characteristics.len()
        invariant
            i <= characteristics.len(),
            copy.len() == i,
            forall|k: int| 0 <= k < i ==> copy[k]@ == characteristics[k]@,
        decreases characteristics.len() - i,
    {
        copy.push(characteristics[i].clone());
        i += 1;
    }
    assert(characteristic_views(copy@) =~= characteristic_views(characteristics@));
    copy
}

/// A service as it was when the peripheral's attributes were discovered,
/// with the characteristics below it.
pub struct InnerService {
    uuid: String,
    data: Vec<u8>,
    characteristics: Vec<InnerCharacteristic>,
}

impl View for InnerService {
    type V = ServiceView;

    closed spec fn view(&self) -> ServiceView {
        ServiceView {
            uuid: self.uuid@,
            data: self.data@,
            characteristics: characteristic_views(self.characteristics@),
        }
    }
}

impl Clone for InnerService {
    fn clone(&self) -> (copy: Self)
        ensures
            copy@ == self@,
    {
        InnerService {
            uuid: self.uuid.clone(),
            data: copy_bytes(&self.data),
            characteristics: copy_characteristics(&self.characteristics),
        }
    }
}

impl InnerService {
    /// A service with the given UUID, advertisement data and
    /// characteristics.
    pub fn new(uuid: String, data: Vec<u8>, characteristics: Vec<InnerCharacteristic>) -> (service:
        Self)
        ensures
            service@ == (ServiceView {
                uuid: uuid@,
                data: data@,
                characteristics: characteristic_views(characteristics@),
            }),
    {
        InnerService { uuid, data, characteristics }
    }

    pub fn uuid(&self) -> (uuid: String)
        ensures
            uuid@ == self@.uuid,
    {
        self.uuid.clone()
    }

    pub fn data(&self) -> (data: Vec<u8>)
        ensures
            data@ == self@.data,
    {
        copy_bytes(&self.data)
    }

    /// The characteristics, each a copy that its holder owns, in discovery
    /// order.
    pub fn characteristics(&self) -> (characteristics: Vec<InnerCharacteristic>)
        ensures
            characteristic_views(characteristics@) == self@.characteristics,
    {
        copy_characteristics(&self.characteristics)
    }

    /// The characteristics, each behind a shared handle of its own, in
    /// discovery order.
    pub fn public_characteristics(&self) -> (characteristics: Vec<Characteristic>)
        ensures
            public_characteristic_views(characteristics@) == self@.characteristics,
    {
        let mut characteristics: Vec<Characteristic> = Vec::new();
        let mut i: usize = 0;
        while i < self.characteristics.len()
            invariant
                i <= self.characteristics.len(),
                characteristics.len() == i,
                forall|k: int| 0 <= k < i ==> characteristics[k]@ == self.characteristics[k]@,
            decreases self.characteristics.len() - i,
        {
            characteristics.push(Characteristic::share(self.characteristics[i].clone()));
            i += 1;
        }
        assert(public_characteristic_views(characteristics@) =~= self@.characteristics);
        characteristics
    }
}

/// A service snapshot that several holders can share.
#[derive(Clone)]
pub struct PublicService {
    inner: Arc<InnerService>,
}

impl View for PublicService {
    type V = ServiceView;

    closed spec fn view(&self) -> ServiceView {
        self.inner@
    }
}

impl PublicService {
    /// The shared form of `service`.
    pub closed spec fn sharing(service: InnerService) -> PublicService {
        PublicService { inner: Arc::new(service) }
    }

    /// Sharing a service keeps what it holds.
    pub proof fn lemma_sharing_keeps_view(service: InnerService)
        ensures
            Self::sharing(service)@ == service@,
    {
    }

    /// Puts `service` behind a shared handle.
    pub fn share(service: InnerService) -> (shared: Self)
        ensures
            shared == Self::sharing(service),
            shared@ == service@,
    {
        PublicService { inner: Arc::new(service) }
    }

    pub fn uuid(&self) -> (uuid: String)
        ensures
            uuid@ == self@.uuid,
    {
        self.inner.uuid()
    }

    pub fn data(&self) -> (data: Vec<u8>)
        ensures
            data@ == self@.data,
    {
        self.inner.data()
    }

    /// The characteristics, each behind a shared handle of its own, in
    /// discovery order.
    pub fn characteristics(&self) -> (characteristics: Vec<Characteristic>)
        ensures
            public_characteristic_views(characteristics@) == self@.characteristics,
    {
        self.inner.public_characteristics()
    }
}

impl From<InnerService> for PublicService {
    fn from(service: InnerService) -> (shared: Self) {
        PublicService::share(service)
    }
}

impl FromSpecImpl<InnerService> for PublicService {
    open spec fn obeys_from_spec() -> bool {
        true
    }

    open spec fn from_spec(service: InnerService) -> Self {
        PublicService::sharing(service)
    }
}

} // verus!
