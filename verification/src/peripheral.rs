use crate::event_bus::{EventBus, Subscriber};
use crate::info::{
    byte_map, manufacturer_map, manufacturer_views, map_by_company, ManufacturerData,
    PeripheralInfo, PeripheralInfoView,
};
use crate::link::{first_refusal, lemma_refusal_stays, BackendLink, LinkState};
use crate::service::{
    copy_bytes, public_service_views, service_views, InnerService, PublicService,
};
use crate::subscriptions::{SubscriptionKey, SubscriptionTable, Subscriptions};
use crate::types::{BluetoothAddressType, Error};
use std::collections::HashMap;
use vstd::prelude::*;
use vstd::string::*;

verus! {

/// A change of a peripheral's connection, as its observers learn of it.
#[derive(Debug, Clone, Copy, PartialEq, Eq, Structural)]
pub enum ConnectionEvent {
    Connected,
    Disconnected,
}

/// A new value of a characteristic that a peripheral notified or indicated.
#[derive(Debug, Clone)]
pub enum ValueChangedEvent {
    ValueUpdated(Vec<u8>),
}

impl View for ValueChangedEvent {
    type V = Seq<u8>;

    /// The bytes of the new value.
    open spec fn view(&self) -> Seq<u8> {
        match self {
            ValueChangedEvent::ValueUpdated(data) => data@,
        }
    }
}

/// Where a peripheral's connection stands.
#[derive(Debug, Clone, Copy, PartialEq, Eq, Structural)]
pub enum ConnectionState {
    Disconnected,
    /// A connection was asked of the transport, which has not answered.
    Connecting,
    Connected,
    /// A disconnection was asked of the transport, which has not answered.
    Disconnecting,
}

/// What the transport is asked to do for a peripheral.
#[derive(Debug, Clone)]
pub enum PeripheralRequest {
    Connect,
    Disconnect,
    Unpair,
    Read { service: String, characteristic: String },
    WriteRequest { service: String, characteristic: String, data: Vec<u8> },
    WriteCommand { service: String, characteristic: String, data: Vec<u8> },
    Notify { service: String, characteristic: String },
    Indicate { service: String, characteristic: String },
    Unsubscribe { service: String, characteristic: String },
    DescriptorRead { service: String, characteristic: String, descriptor: String },
    DescriptorWrite { service: String, characteristic: String, descriptor: String, data: Vec<u8> },
}

/// What a `PeripheralRequest` holds.
pub enum PeripheralRequestView {
    Connect,
    Disconnect,
    Unpair,
    Read { service: Seq<char>, characteristic: Seq<char> },
    WriteRequest { service: Seq<char>, characteristic: Seq<char>, data: Seq<u8> },
    WriteCommand { service: Seq<char>, characteristic: Seq<char>, data: Seq<u8> },
    Notify { service: Seq<char>, characteristic: Seq<char> },
    Indicate { service: Seq<char>, characteristic: Seq<char> },
    Unsubscribe { service: Seq<char>, characteristic: Seq<char> },
    DescriptorRead { service: Seq<char>, characteristic: Seq<char>, descriptor: Seq<char> },
    DescriptorWrite {
        service: Seq<char>,
        characteristic: Seq<char>,
        descriptor: Seq<char>,
        data: Seq<u8>,
    },
}

impl View for PeripheralRequest {
    type V = PeripheralRequestView;

    open spec fn view(&self) -> PeripheralRequestView {
        match self {
            PeripheralRequest::Connect => PeripheralRequestView::Connect,
            PeripheralRequest::Disconnect => PeripheralRequestView::Disconnect,
            PeripheralRequest::Unpair => PeripheralRequestView::Unpair,
            PeripheralRequest::Read { service, characteristic } => PeripheralRequestView::Read {
                service: service@,
                characteristic: characteristic@,
            },
            PeripheralRequest::WriteRequest {
                service,
                characteristic,
                data,
            } => PeripheralRequestView::WriteRequest {
                service: service@,
                characteristic: characteristic@,
                data: data@,
            },
            PeripheralRequest::WriteCommand {
                service,
                characteristic,
                data,
            } => PeripheralRequestView::WriteCommand {
                service: service@,
                characteristic: characteristic@,
                data: data@,
            },
            PeripheralRequest::Notify { service, characteristic } => PeripheralRequestView::Notify {
                service: service@,
                characteristic: characteristic@,
            },
            PeripheralRequest::Indicate {
                service,
                characteristic,
            } => PeripheralRequestView::Indicate {
                service: service@,
                characteristic: characteristic@,
            },
            PeripheralRequest::Unsubscribe {
                service,
                characteristic,
            } => PeripheralRequestView::Unsubscribe {
                service: service@,
                characteristic: characteristic@,
            },
            PeripheralRequest::DescriptorRead {
                service,
                characteristic,
                descriptor,
            } => PeripheralRequestView::DescriptorRead {
                service: service@,
                characteristic: characteristic@,
                descriptor: descriptor@,
            },
            PeripheralRequest::DescriptorWrite {
                service,
                characteristic,
                descriptor,
                data,
            } => PeripheralRequestView::DescriptorWrite {
                service: service@,
                characteristic: characteristic@,
                descriptor: descriptor@,
                data: data@,
            },
        }
    }
}

/// The message of the error that rejects an operation which needs a
/// connection.
pub open spec fn not_connected_text() -> Seq<char> {
    "Peripheral is not connected"@
}

/// The message of the error that rejects a connection attempt on a
/// peripheral that is not disconnected.
pub open spec fn not_disconnected_text() -> Seq<char> {
    "Peripheral is not disconnected"@
}

/// What is known after the transport's `answer`: its value, or after a
/// failure what was `known` before.
pub open spec fn recorded<T>(answer: Result<T, Error>, known: Option<T>) -> Option<T> {
    match answer {
        Ok(value) => Some(value),
        Err(_) => known,
    }
}

/// What a peripheral is, as its contracts see it.
pub struct PeripheralView {
    pub info: PeripheralInfoView,
    pub link: LinkState,
    pub state: ConnectionState,
    /// Every connection event published so far, in order.
    pub connection_events: Seq<ConnectionEvent>,
    /// The characteristics that have a value bus, each with the bytes of
    /// every event published on it so far.
    pub subscriptions: Subscriptions,
}

impl PeripheralView {
    pub open spec fn is_linked(self) -> bool {
        self.link == LinkState::Linked
    }

    pub open spec fn is_connected(self) -> bool {
        self.state == ConnectionState::Connected
    }

    /// Whether the connection is up: it is from the moment it is
    /// established until it is confirmed gone.
    pub open spec fn is_up(self) -> bool {
        self.state == ConnectionState::Connected || self.state == ConnectionState::Disconnecting
    }

    /// Subscriptions exist only while the connection is up.
    pub open spec fn wf(self) -> bool {
        !self.is_up() ==> self.subscriptions == Subscriptions::empty()
    }

    /// A new peripheral of which `info` is known: not linked, connected or
    /// disconnected as the transport says, nothing published, no
    /// subscription.
    pub open spec fn fresh(info: PeripheralInfoView, connected: bool) -> PeripheralView {
        PeripheralView {
            info,
            link: LinkState::Unlinked,
            state: if connected {
                ConnectionState::Connected
            } else {
                ConnectionState::Disconnected
            },
            connection_events: Seq::empty(),
            subscriptions: Subscriptions::empty(),
        }
    }

    /// The transport reports that the connection is established: the
    /// peripheral is connected, and `Connected` is published.
    pub open spec fn connected(self) -> PeripheralView {
        PeripheralView {
            state: ConnectionState::Connected,
            connection_events: self.connection_events.push(ConnectionEvent::Connected),
            ..self
        }
    }

    /// The transport reports that the connection is gone: the peripheral
    /// is disconnected, every subscription ends, and `Disconnected` is
    /// published.
    pub open spec fn disconnected(self) -> PeripheralView {
        PeripheralView {
            state: ConnectionState::Disconnected,
            connection_events: self.connection_events.push(ConnectionEvent::Disconnected),
            subscriptions: Subscriptions::empty(),
            ..self
        }
    }

    /// The transport answers that the peripheral is connected, or that it
    /// is not. Where that differs from what the peripheral took the
    /// connection to be, the peripheral follows the transport; a
    /// connection that is found gone ends the subscriptions. A pending
    /// request stays pending where the answer agrees with the state that
    /// it began in.
    pub open spec fn connection_reported(self, connected: bool) -> PeripheralView {
        if connected && !self.is_up() {
            PeripheralView { state: ConnectionState::Connected, ..self }
        } else if !connected && self.is_up() {
            PeripheralView {
                state: ConnectionState::Disconnected,
                subscriptions: Subscriptions::empty(),
                ..self
            }
        } else {
            self
        }
    }

    /// A connection is asked for: only a disconnected peripheral starts
    /// one.
    pub open spec fn connect_requested(self) -> PeripheralView {
        if self.state == ConnectionState::Disconnected {
            PeripheralView { state: ConnectionState::Connecting, ..self }
        } else {
            self
        }
    }

    /// The transport has answered a connection request. The answer counts
    /// only while the request is still pending: then the peripheral is
    /// connected after a success and disconnected after a failure. Nothing
    /// is published: that is the callback's.
    pub open spec fn connect_finished(self, succeeded: bool) -> PeripheralView {
        if self.state != ConnectionState::Connecting {
            self
        } else if succeeded {
            PeripheralView { state: ConnectionState::Connected, ..self }
        } else {
            PeripheralView { state: ConnectionState::Disconnected, ..self }
        }
    }

    /// A disconnection is asked for: only a connected peripheral starts
    /// one.
    pub open spec fn disconnect_requested(self) -> PeripheralView {
        if self.state == ConnectionState::Connected {
            PeripheralView { state: ConnectionState::Disconnecting, ..self }
        } else {
            self
        }
    }

    /// The transport has answered a disconnection request. The answer
    /// counts only while the request is still pending: then the peripheral
    /// is disconnected and without subscriptions after a success, and
    /// connected as before after a failure. Nothing is published: that is
    /// the callback's.
    pub open spec fn disconnect_finished(self, succeeded: bool) -> PeripheralView {
        if self.state != ConnectionState::Disconnecting {
            self
        } else if succeeded {
            PeripheralView {
                state: ConnectionState::Disconnected,
                subscriptions: Subscriptions::empty(),
                ..self
            }
        } else {
            PeripheralView { state: ConnectionState::Connected, ..self }
        }
    }

    /// A subscription to `key` is asked for. While connected, a
    /// characteristic without a bus gets one; nothing else changes.
    pub open spec fn subscribed(self, key: SubscriptionKey) -> PeripheralView {
        if self.is_connected() && !self.subscriptions.contains_key(key) {
            PeripheralView { subscriptions: self.subscriptions.insert(key, Seq::empty()), ..self }
        } else {
            self
        }
    }

    /// Whether a subscription to `key` has to be asked of the transport:
    /// only the first one of a characteristic is.
    pub open spec fn needs_transport(self, key: SubscriptionKey) -> bool {
        self.is_connected() && !self.subscriptions.contains_key(key)
    }

    /// The transport has answered a subscription request. A refusal takes
    /// the bus away again.
    pub open spec fn subscribe_finished(self, key: SubscriptionKey, succeeded: bool)
        -> PeripheralView {
        if succeeded {
            self
        } else {
            PeripheralView { subscriptions: self.subscriptions.remove(key), ..self }
        }
    }

    /// The subscription to `key` is given up: while the connection is up,
    /// its bus goes; otherwise nothing changes.
    pub open spec fn unsubscribed(self, key: SubscriptionKey) -> PeripheralView {
        if self.is_up() {
            PeripheralView { subscriptions: self.subscriptions.remove(key), ..self }
        } else {
            self
        }
    }

    /// The transport reports a new value of `key`. It is published on the
    /// characteristic's bus; without a bus it is dropped.
    pub open spec fn value_updated(self, key: SubscriptionKey, data: Seq<u8>) -> PeripheralView {
        if self.subscriptions.contains_key(key) {
            PeripheralView {
                subscriptions: self.subscriptions.insert(key, self.subscriptions[key].push(data)),
                ..self
            }
        } else {
            self
        }
    }

    /// The transport reports `values` of `key`, one after the other.
    pub open spec fn values_updated(self, key: SubscriptionKey, values: Seq<Seq<u8>>)
        -> PeripheralView
        decreases values.len(),
    {
        if values.len() == 0 {
            self
        } else {
            self.values_updated(key, values.drop_last()).value_updated(key, values.last())
        }
    }
}

/// A peripheral as the transport hands it over: what is known of it,
/// whether the transport says that it is connected, and the transport's
/// answer to its registration.
pub struct PeripheralHandle {
    pub info: PeripheralInfo,
    pub connected: bool,
    pub link: Result<(), Error>,
}

/// The transport's answers to the registrations of `handles`, in order.
pub open spec fn peripheral_links(handles: Seq<PeripheralHandle>) -> Seq<Result<(), Error>> {
    handles.map_values(|h: PeripheralHandle| h.link)
}

/// What `notify` and `indicate` hand out.
pub struct Subscription {
    /// The caller's own handle on the characteristic's value bus.
    pub subscriber: Subscriber<ValueChangedEvent>,
    /// What to ask of the transport, if anything: the answer goes to
    /// `subscribe_finished`.
    pub request: Option<PeripheralRequest>,
}

/// One peripheral: what is known of it, its link to the transport, its
/// connection, and its event buses.
pub struct InnerPeripheral {
    info: PeripheralInfo,
    link: BackendLink,
    state: ConnectionState,
    on_connection_event: EventBus<ConnectionEvent>,
    on_characteristic_update_map: SubscriptionTable,
}

impl View for InnerPeripheral {
    type V = PeripheralView;

    closed spec fn view(&self) -> PeripheralView {
        PeripheralView {
            info: self.info@,
            link: self.link@,
            state: self.state,
            connection_events: self.on_connection_event@,
            subscriptions: self.on_characteristic_update_map@,
        }
    }
}

fn not_connected() -> (error: Error)
    ensures
        error@ == not_connected_text(),
{
    Error::from_string(String::from_str("Peripheral is not connected"))
}

impl InnerPeripheral {
    /// No characteristic has two buses, the connection bus is the
    /// peripheral's own, and the view is well-formed.
    pub closed spec fn wf(&self) -> bool {
        &&& self.on_characteristic_update_map.wf()
        &&& self.on_connection_event.topic() is None
        &&& self@.wf()
    }

    /// A well-formed peripheral has a well-formed view.
    pub proof fn lemma_wf_view(&self)
        requires
            self.wf(),
        ensures
            self@.wf(),
    {
    }

    /// A peripheral of which `info` is known: not linked yet, connected or
    /// disconnected as the transport says, with nothing published and no
    /// subscription.
    pub fn new(info: PeripheralInfo, connected: bool) -> (peripheral: Self)
        ensures
            peripheral.wf(),
            peripheral@ == PeripheralView::fresh(info@, connected),
    {
        InnerPeripheral {
            info,
            link: BackendLink::new(),
            state: if connected {
                ConnectionState::Connected
            } else {
                ConnectionState::Disconnected
            },
            on_connection_event: EventBus::new(),
            on_characteristic_update_map: SubscriptionTable::new(),
        }
    }

    /// Makes the peripherals of what the transport handed over, in its
    /// order, each one linked. The first refused registration is handed
    /// on: then no peripheral is returned.
    pub fn from_handles(handles: Vec<PeripheralHandle>) -> (result: Result<
        Vec<InnerPeripheral>,
        Error,
    >)
        ensures
            match first_refusal(peripheral_links(handles@)) {
                Some(at) => 0 <= at < handles.len() && result == Err::<
                    Vec<InnerPeripheral>,
                    Error,
                >(handles[at].link->Err_0),
                None => result matches Ok(peripherals) && peripherals.len() == handles.len()
                    && forall|k: int|
                    0 <= k < peripherals.len() ==> (#[trigger] peripherals[k]).wf()
                        && peripherals[k]@ == (PeripheralView {
                        link: LinkState::Linked,
                        ..PeripheralView::fresh(handles[k].info@, handles[k].connected)
                    }),
            },
    {
        let ghost all = handles@;
        let ghost links = peripheral_links(all);
        let mut pending = handles;
        let mut i: usize = 0;
        while i < pending.len()
            invariant
                i <= pending.len(),
                pending@ == all,
                handles@ == all,
                links == peripheral_links(all),
                first_refusal(links.subrange(0, i as int)) is None,
            decreases pending.len() - i,
        {
            proof {
                let upto = links.subrange(0, i + 1);
                assert(upto.drop_last() =~= links.subrange(0, i as int));
                assert(upto.last() == all[i as int].link);
            }
            if pending[i].link.is_err() {
                proof {
                    assert(first_refusal(links.subrange(0, i + 1)) == Some(i as int));
                    lemma_refusal_stays(links.subrange(0, i + 1), links);
                }
                let refused = pending.swap_remove(i);
                return Err(refused.link.unwrap_err());
            }
            i += 1;
        }
        assert(links.subrange(0, i as int) =~= links);
        let mut peripherals: Vec<InnerPeripheral> = Vec::new();
        let mut k: usize = 0;
        while k < pending.len()
            invariant
                k <= pending.len(),
                pending@ == all,
                handles@ == all,
                peripherals.len() == k,
                forall|j: int|
                    0 <= j < k ==> (#[trigger] peripherals[j]).wf() && peripherals[j]@
                        == (PeripheralView {
                        link: LinkState::Linked,
                        ..PeripheralView::fresh(all[j].info@, all[j].connected)
                    }),
            decreases pending.len() - k,
        {
            let mut peripheral = InnerPeripheral::new(
                pending[k].info.clone(),
                pending[k].connected,
            );
            let _ = peripheral.link(Ok(()));
            peripherals.push(peripheral);
            k += 1;
        }
        Ok(peripherals)
    }

    /// Records the transport's answer to the registration of this
    /// peripheral. A refusal is handed on and leaves the peripheral
    /// released.
    pub fn link(&mut self, outcome: Result<(), Error>) -> (result: Result<(), Error>)
        requires
            old(self).wf(),
            old(self)@.link == LinkState::Unlinked,
        ensures
            final(self).wf(),
            result == outcome,
            final(self)@ == (PeripheralView {
                link: if outcome is Ok {
                    LinkState::Linked
                } else {
                    LinkState::Released
                },
                ..old(self)@
            }),
    {
        self.link.link(outcome)
    }

    /// Records the transport's answer to the deregistration of this
    /// peripheral, which is released whatever the answer. A failure is
    /// handed on.
    pub fn unlink(&mut self, outcome: Result<(), Error>) -> (result: Result<(), Error>)
        requires
            old(self).wf(),
            old(self)@.is_linked(),
        ensures
            final(self).wf(),
            result == outcome,
            final(self)@ == (PeripheralView { link: LinkState::Released, ..old(self)@ }),
    {
        self.link.unlink(outcome)
    }

    pub fn is_linked(&self) -> (linked: bool)
        ensures
            linked == self@.is_linked(),
    {
        self.link.is_linked()
    }

    pub fn connection_state(&self) -> (state: ConnectionState)
        ensures
            state == self@.state,
    {
        self.state
    }
}


fn not_disconnected() -> (error: Error)
    ensures
        error@ == not_disconnected_text(),
{
    Error::from_string(String::from_str("Peripheral is not disconnected"))
}

impl InnerPeripheral {
    pub fn identifier(&self) -> (result: Result<String, Error>)
        ensures
            result matches Ok(identifier) && identifier@ == self@.info.identifier,
    {
        Ok(self.info.identifier.clone())
    }

    pub fn address(&self) -> (result: Result<String, Error>)
        ensures
            result matches Ok(address) && address@ == self@.info.address,
    {
        Ok(self.info.address.clone())
    }

    /// Decodes what the transport answered when asked for the address
    /// type, leniently: a number that the transport does not define reads
    /// as `Unspecified`. A failed query is handed on.
    pub fn address_type(&self, answer: Result<i32, Error>) -> (result: Result<
        BluetoothAddressType,
        Error,
    >)
        ensures
            match answer {
                Ok(raw) => result == Ok::<BluetoothAddressType, Error>(
                    BluetoothAddressType::decode(raw),
                ),
                Err(error) => result == Err::<BluetoothAddressType, Error>(error),
            },
    {
        match answer {
            Ok(raw) => Ok(BluetoothAddressType::from_raw(raw)),
            Err(error) => Err(error),
        }
    }

    /// Takes what the transport answered when asked for the signal
    /// strength, and hands it on. A level becomes the last known one; a
    /// failure leaves what was known.
    pub fn rssi(&mut self, answer: Result<i16, Error>) -> (result: Result<i16, Error>)
        requires
            old(self).wf(),
        ensures
            final(self).wf(),
            result == answer,
            final(self)@ == (PeripheralView {
                info: PeripheralInfoView {
                    rssi: recorded(answer, old(self)@.info.rssi),
                    ..old(self)@.info
                },
                ..old(self)@
            }),
    {
        if let Ok(level) = &answer {
            self.info.rssi = Some(*level);
        }
        answer
    }

    /// Takes what the transport answered when asked for the transmit
    /// power, and hands it on. A level becomes the last known one; a
    /// failure leaves what was known.
    pub fn tx_power(&mut self, answer: Result<i16, Error>) -> (result: Result<i16, Error>)
        requires
            old(self).wf(),
        ensures
            final(self).wf(),
            result == answer,
            final(self)@ == (PeripheralView {
                info: PeripheralInfoView {
                    tx_power: recorded(answer, old(self)@.info.tx_power),
                    ..old(self)@.info
                },
                ..old(self)@
            }),
    {
        if let Ok(level) = &answer {
            self.info.tx_power = Some(*level);
        }
        answer
    }

    /// Takes what the transport answered when asked for the MTU, and hands
    /// it on. A value becomes the last known one; a failure leaves what
    /// was known.
    pub fn mtu(&mut self, answer: Result<u16, Error>) -> (result: Result<u16, Error>)
        requires
            old(self).wf(),
        ensures
            final(self).wf(),
            result == answer,
            final(self)@ == (PeripheralView {
                info: PeripheralInfoView {
                    mtu: recorded(answer, old(self)@.info.mtu),
                    ..old(self)@.info
                },
                ..old(self)@
            }),
    {
        if let Ok(mtu) = &answer {
            self.info.mtu = Some(*mtu);
        }
        answer
    }

    /// Takes what the transport answered when asked whether the peripheral
    /// is connected, and hands it on. The transport is the one that knows:
    /// where its answer differs from what the peripheral took the
    /// connection to be, the peripheral follows it, and a connection that
    /// is found gone ends the subscriptions. Nothing is published. A failed
    /// query changes nothing.
    pub fn is_connected(&mut self, answer: Result<bool, Error>) -> (result: Result<bool, Error>)
        requires
            old(self).wf(),
            old(self)@.is_linked(),
        ensures
            final(self).wf(),
            result == answer,
            final(self)@ == match answer {
                Ok(connected) => old(self)@.connection_reported(connected),
                Err(_) => old(self)@,
            },
    {
        if let Ok(connected) = &answer {
            let up = self.state == ConnectionState::Connected || self.state
                == ConnectionState::Disconnecting;
            if *connected && !up {
                self.state = ConnectionState::Connected;
            } else if !*connected && up {
                self.on_characteristic_update_map.clear();
                self.state = ConnectionState::Disconnected;
            }
        }
        answer
    }

    /// Takes what the transport answered when asked whether the peripheral
    /// is connectable, and hands it on. An answer becomes the last known
    /// one; a failure leaves what was known.
    pub fn is_connectable(&mut self, answer: Result<bool, Error>) -> (result: Result<bool, Error>)
        requires
            old(self).wf(),
        ensures
            final(self).wf(),
            result == answer,
            final(self)@ == (PeripheralView {
                info: PeripheralInfoView {
                    connectable: recorded(answer, old(self)@.info.connectable),
                    ..old(self)@.info
                },
                ..old(self)@
            }),
    {
        if let Ok(connectable) = &answer {
            self.info.connectable = Some(*connectable);
        }
        answer
    }

    /// Takes what the transport answered when asked whether the peripheral
    /// is paired, and hands it on. An answer becomes the last known one; a
    /// failure leaves what was known.
    pub fn is_paired(&mut self, answer: Result<bool, Error>) -> (result: Result<bool, Error>)
        requires
            old(self).wf(),
        ensures
            final(self).wf(),
            result == answer,
            final(self)@ == (PeripheralView {
                info: PeripheralInfoView {
                    paired: recorded(answer, old(self)@.info.paired),
                    ..old(self)@.info
                },
                ..old(self)@
            }),
    {
        if let Ok(paired) = &answer {
            self.info.paired = Some(*paired);
        }
        answer
    }

    /// Takes the manufacturer blocks that the transport answered with, and
    /// gives them by company: where a company occurs more than once, its
    /// last block stands. The blocks become the last known ones. A failed
    /// query is handed on and leaves what was known.
    pub fn manufacturer_data(&mut self, answer: Result<Vec<ManufacturerData>, Error>) -> (result:
        Result<HashMap<u16, Vec<u8>>, Error>)
        requires
            old(self).wf(),
        ensures
            final(self).wf(),
            match answer {
                Ok(blocks) => result matches Ok(by_company) && byte_map(by_company@)
                    == manufacturer_map(manufacturer_views(blocks@)) && final(self)@
                    == (PeripheralView {
                    info: PeripheralInfoView {
                        manufacturer_data: Some(manufacturer_views(blocks@)),
                        ..old(self)@.info
                    },
                    ..old(self)@
                }),
                Err(error) => result == Err::<HashMap<u16, Vec<u8>>, Error>(error) && final(self)@
                    == old(self)@,
            },
    {
        match answer {
            Ok(blocks) => {
                let by_company = map_by_company(&blocks);
                self.info.manufacturer_data = Some(blocks);
                Ok(by_company)
            },
            Err(error) => Err(error),
        }
    }

    /// What is known of the peripheral, as a copy.
    pub fn info(&self) -> (info: PeripheralInfo)
        ensures
            info@ == self@.info,
    {
        self.info.clone()
    }

    /// Takes over a later report of this peripheral: who it is stays, every
    /// other field of what is known becomes the report's.
    pub fn update(&mut self, latest: PeripheralInfo)
        requires
            old(self).wf(),
        ensures
            final(self).wf(),
            final(self)@ == (PeripheralView {
                info: old(self)@.info.refreshed(latest@),
                ..old(self)@
            }),
    {
        self.info.refresh(latest);
    }

    /// Starts a connection. A disconnected peripheral becomes connecting
    /// and the transport is to be asked to connect; its answer goes to
    /// `connect_finished`. In every other state the call is rejected and
    /// changes nothing.
    pub fn connect(&mut self) -> (result: Result<PeripheralRequest, Error>)
        requires
            old(self).wf(),
            old(self)@.is_linked(),
        ensures
            final(self).wf(),
            final(self)@ == old(self)@.connect_requested(),
            match result {
                Ok(request) => old(self)@.state == ConnectionState::Disconnected && request@
                    == PeripheralRequestView::Connect,
                Err(error) => old(self)@.state != ConnectionState::Disconnected && error@
                    == not_disconnected_text(),
            },
    {
        if self.state == ConnectionState::Disconnected {
            self.state = ConnectionState::Connecting;
            Ok(PeripheralRequest::Connect)
        } else {
            Err(not_disconnected())
        }
    }

    /// Takes the transport's answer to a connection request and hands it
    /// on. While the request is pending, success makes the peripheral
    /// connected and failure makes it disconnected again. Nothing is
    /// published: the observers hear of the connection through the
    /// transport's callback.
    pub fn connect_finished(&mut self, outcome: Result<(), Error>) -> (result: Result<(), Error>)
        requires
            old(self).wf(),
            old(self)@.is_linked(),
        ensures
            final(self).wf(),
            result == outcome,
            final(self)@ == old(self)@.connect_finished(outcome is Ok),
    {
        if self.state == ConnectionState::Connecting {
            if outcome.is_ok() {
                self.state = ConnectionState::Connected;
            } else {
                self.state = ConnectionState::Disconnected;
            }
        }
        outcome
    }

    /// Starts a disconnection. A connected peripheral becomes disconnecting
    /// and the transport is to be asked to disconnect; its answer goes to
    /// `disconnect_finished`. In every other state the call is rejected and
    /// changes nothing.
    pub fn disconnect(&mut self) -> (result: Result<PeripheralRequest, Error>)
        requires
            old(self).wf(),
            old(self)@.is_linked(),
        ensures
            final(self).wf(),
            final(self)@ == old(self)@.disconnect_requested(),
            match result {
                Ok(request) => old(self)@.is_connected() && request@
                    == PeripheralRequestView::Disconnect,
                Err(error) => !old(self)@.is_connected() && error@ == not_connected_text(),
            },
    {
        if self.state == ConnectionState::Connected {
            self.state = ConnectionState::Disconnecting;
            Ok(PeripheralRequest::Disconnect)
        } else {
            Err(not_connected())
        }
    }

    /// Takes the transport's answer to a disconnection request and hands it
    /// on. While the request is pending, success makes the peripheral
    /// disconnected and ends its subscriptions, and failure leaves it
    /// connected. Nothing is published: the observers hear of the
    /// disconnection through the transport's callback.
    pub fn disconnect_finished(&mut self, outcome: Result<(), Error>) -> (result: Result<
        (),
        Error,
    >)
        requires
            old(self).wf(),
            old(self)@.is_linked(),
        ensures
            final(self).wf(),
            result == outcome,
            final(self)@ == old(self)@.disconnect_finished(outcome is Ok),
    {
        if self.state == ConnectionState::Disconnecting {
            if outcome.is_ok() {
                self.on_characteristic_update_map.clear();
                self.state = ConnectionState::Disconnected;
            } else {
                self.state = ConnectionState::Connected;
            }
        }
        outcome
    }

    /// The transport reports that the connection is established: the
    /// peripheral is connected, and `Connected` is published, whatever the
    /// peripheral was told before.
    pub fn on_callback_connected(&mut self)
        requires
            old(self).wf(),
            old(self)@.is_linked(),
        ensures
            final(self).wf(),
            final(self)@ == old(self)@.connected(),
    {
        self.state = ConnectionState::Connected;
        self.on_connection_event.publish(ConnectionEvent::Connected);
    }

    /// The transport reports that the connection is gone: the peripheral
    /// is disconnected, its subscriptions end, and `Disconnected` is
    /// published, whatever the peripheral was told before.
    pub fn on_callback_disconnected(&mut self)
        requires
            old(self).wf(),
            old(self)@.is_linked(),
        ensures
            final(self).wf(),
            final(self)@ == old(self)@.disconnected(),
    {
        self.on_characteristic_update_map.clear();
        self.state = ConnectionState::Disconnected;
        self.on_connection_event.publish(ConnectionEvent::Disconnected);
    }

    /// A new subscriber to the connection events, which begins after the
    /// connection events published so far: the first that it can see is
    /// the next one published.
    pub fn on_connection_event(&self) -> (subscriber: Subscriber<ConnectionEvent>)
        requires
            self.wf(),
        ensures
            subscriber.topic() is None,
            subscriber.start() == self@.connection_events.len(),
    {
        self.on_connection_event.subscribe()
    }

    /// The request to forget the pairing with this peripheral. The
    /// transport's answer goes to `unpair_finished`.
    pub fn unpair(&self) -> (result: Result<PeripheralRequest, Error>)
        requires
            self@.is_linked(),
        ensures
            result matches Ok(request) && request@ == PeripheralRequestView::Unpair,
    {
        Ok(PeripheralRequest::Unpair)
    }

    /// Takes the transport's answer to an unpair request and hands it on.
    /// After a success the peripheral is no longer known as paired.
    pub fn unpair_finished(&mut self, outcome: Result<(), Error>) -> (result: Result<(), Error>)
        requires
            old(self).wf(),
            old(self)@.is_linked(),
        ensures
            final(self).wf(),
            result == outcome,
            final(self)@ == if outcome is Ok {
                PeripheralView {
                    info: PeripheralInfoView { paired: Some(false), ..old(self)@.info },
                    ..old(self)@
                }
            } else {
                old(self)@
            },
    {
        if outcome.is_ok() {
            self.info.paired = Some(false);
        }
        outcome
    }

    /// Builds the attribute tree from what a discovery by the transport
    /// returned: each service behind a shared handle of its own, in
    /// discovery order. A failed discovery is handed on.
    pub fn services(&self, discovered: Result<Vec<InnerService>, Error>) -> (result: Result<
        Vec<PublicService>,
        Error,
    >)
        ensures
            match discovered {
                Ok(tree) => result matches Ok(services) && public_service_views(services@)
                    == service_views(tree@),
                Err(error) => result == Err::<Vec<PublicService>, Error>(error),
            },
    {
        match discovered {
            Ok(tree) => {
                let ghost found = tree@;
                let mut tree = tree;
                let mut services: Vec<PublicService> = Vec::new();
                let mut i: usize = 0;
                while i < tree.len()
                    invariant
                        i <= tree.len(),
                        tree@ == found,
                        services.len() == i,
                        forall|k: int| 0 <= k < i ==> services[k]@ == found[k]@,
                    decreases tree.len() - i,
                {
                    services.push(PublicService::share(tree[i].clone()));
                    i += 1;
                }
                assert(public_service_views(services@) =~= service_views(found));
                Ok(services)
            },
            Err(error) => Err(error),
        }
    }

    /// The request to read a characteristic. Without a connection the call
    /// is rejected and nothing is asked of the transport.
    pub fn read(&self, service: &String, characteristic: &String) -> (result: Result<
        PeripheralRequest,
        Error,
    >)
        requires
            self@.is_linked(),
        ensures
            match result {
                Ok(request) => self@.is_connected() && request@ == (PeripheralRequestView::Read {
                    service: service@,
                    characteristic: characteristic@,
                }),
                Err(error) => !self@.is_connected() && error@ == not_connected_text(),
            },
    {
        if self.state == ConnectionState::Connected {
            Ok(
                PeripheralRequest::Read {
                    service: service.clone(),
                    characteristic: characteristic.clone(),
                },
            )
        } else {
            Err(not_connected())
        }
    }

    /// The request to write a characteristic and wait for the peripheral's
    /// acknowledgement. Without a connection the call is rejected and
    /// nothing is asked of the transport.
    pub fn write_request(&self, service: &String, characteristic: &String, data: &Vec<u8>) -> (result:
        Result<PeripheralRequest, Error>)
        requires
            self@.is_linked(),
        ensures
            match result {
                Ok(request) => self@.is_connected() && request@
                    == (PeripheralRequestView::WriteRequest {
                    service: service@,
                    characteristic: characteristic@,
                    data: data@,
                }),
                Err(error) => !self@.is_connected() && error@ == not_connected_text(),
            },
    {
        if self.state == ConnectionState::Connected {
            Ok(
                PeripheralRequest::WriteRequest {
                    service: service.clone(),
                    characteristic: characteristic.clone(),
                    data: copy_bytes(data),
                },
            )
        } else {
            Err(not_connected())
        }
    }

    /// The request to write a characteristic without acknowledgement.
    /// Without a connection the call is rejected and nothing is asked of
    /// the transport.
    pub fn write_command(&self, service: &String, characteristic: &String, data: &Vec<u8>) -> (result:
        Result<PeripheralRequest, Error>)
        requires
            self@.is_linked(),
        ensures
            match result {
                Ok(request) => self@.is_connected() && request@
                    == (PeripheralRequestView::WriteCommand {
                    service: service@,
                    characteristic: characteristic@,
                    data: data@,
                }),
                Err(error) => !self@.is_connected() && error@ == not_connected_text(),
            },
    {
        if self.state == ConnectionState::Connected {
            Ok(
                PeripheralRequest::WriteCommand {
                    service: service.clone(),
                    characteristic: characteristic.clone(),
                    data: copy_bytes(data),
                },
            )
        } else {
            Err(not_connected())
        }
    }

    /// The request to read a descriptor. Without a connection the call is
    /// rejected and nothing is asked of the transport.
    pub fn descriptor_read(
        &self,
        service: &String,
        characteristic: &String,
        descriptor: &String,
    ) -> (result: Result<PeripheralRequest, Error>)
        requires
            self@.is_linked(),
        ensures
            match result {
                Ok(request) => self@.is_connected() && request@
                    == (PeripheralRequestView::DescriptorRead {
                    service: service@,
                    characteristic: characteristic@,
                    descriptor: descriptor@,
                }),
                Err(error) => !self@.is_connected() && error@ == not_connected_text(),
            },
    {
        if self.state == ConnectionState::Connected {
            Ok(
                PeripheralRequest::DescriptorRead {
                    service: service.clone(),
                    characteristic: characteristic.clone(),
                    descriptor: descriptor.clone(),
                },
            )
        } else {
            Err(not_connected())
        }
    }

    /// The request to write a descriptor. Without a connection the call is
    /// rejected and nothing is asked of the transport.
    pub fn descriptor_write(
        &self,
        service: &String,
        characteristic: &String,
        descriptor: &String,
        data: &Vec<u8>,
    ) -> (result: Result<PeripheralRequest, Error>)
        requires
            self@.is_linked(),
        ensures
            match result {
                Ok(request) => self@.is_connected() && request@
                    == (PeripheralRequestView::DescriptorWrite {
                    service: service@,
                    characteristic: characteristic@,
                    descriptor: descriptor@,
                    data: data@,
                }),
                Err(error) => !self@.is_connected() && error@ == not_connected_text(),
            },
    {
        if self.state == ConnectionState::Connected {
            Ok(
                PeripheralRequest::DescriptorWrite {
                    service: service.clone(),
                    characteristic: characteristic.clone(),
                    descriptor: descriptor.clone(),
                    data: copy_bytes(data),
                },
            )
        } else {
            Err(not_connected())
        }
    }

    /// Subscribes to the notifications of a characteristic. Each call
    /// hands out a subscriber of its own on the characteristic's bus, which
    /// begins after what that bus has carried. The first subscription of a
    /// characteristic creates its bus and names the request for the
    /// transport; a later one uses the bus that is there and asks nothing
    /// of the transport. Without a connection the call is rejected and
    /// changes nothing.
    pub fn notify(&mut self, service: &String, characteristic: &String) -> (result: Result<
        Subscription,
        Error,
    >)
        requires
            old(self).wf(),
            old(self)@.is_linked(),
        ensures
            final(self).wf(),
            final(self)@ == old(self)@.subscribed((service@, characteristic@)),
            match result {
                Ok(subscription) => old(self)@.is_connected() && subscription.subscriber.topic()
                    == Some((service@, characteristic@)) && subscription.subscriber.start()
                    == final(self)@.subscriptions[(service@, characteristic@)].len()
                    && match subscription.request {
                    Some(request) => old(self)@.needs_transport((service@, characteristic@))
                        && request@ == (PeripheralRequestView::Notify {
                        service: service@,
                        characteristic: characteristic@,
                    }),
                    None => !old(self)@.needs_transport((service@, characteristic@)),
                },
                Err(error) => !old(self)@.is_connected() && error@ == not_connected_text(),
            },
    {
        if self.state != ConnectionState::Connected {
            return Err(not_connected());
        }
        let (subscriber, created) = self.on_characteristic_update_map.subscribe(
            service,
            characteristic,
        );
        let request = if created {
            Some(
                PeripheralRequest::Notify {
                    service: service.clone(),
                    characteristic: characteristic.clone(),
                },
            )
        } else {
            None
        };
        Ok(Subscription { subscriber, request })
    }

    /// Subscribes to the indications of a characteristic. Each call hands
    /// out a subscriber of its own on the characteristic's bus, which begins
    /// after what that bus has carried. The first subscription of a
    /// characteristic creates its bus and names the request for the
    /// transport; a later one uses the bus that is there and asks nothing
    /// of the transport. Without a connection the call is rejected and
    /// changes nothing.
    pub fn indicate(&mut self, service: &String, characteristic: &String) -> (result: Result<
        Subscription,
        Error,
    >)
        requires
            old(self).wf(),
            old(self)@.is_linked(),
        ensures
            final(self).wf(),
            final(self)@ == old(self)@.subscribed((service@, characteristic@)),
            match result {
                Ok(subscription) => old(self)@.is_connected() && subscription.subscriber.topic()
                    == Some((service@, characteristic@)) && subscription.subscriber.start()
                    == final(self)@.subscriptions[(service@, characteristic@)].len()
                    && match subscription.request {
                    Some(request) => old(self)@.needs_transport((service@, characteristic@))
                        && request@ == (PeripheralRequestView::Indicate {
                        service: service@,
                        characteristic: characteristic@,
                    }),
                    None => !old(self)@.needs_transport((service@, characteristic@)),
                },
                Err(error) => !old(self)@.is_connected() && error@ == not_connected_text(),
            },
    {
        if self.state != ConnectionState::Connected {
            return Err(not_connected());
        }
        let (subscriber, created) = self.on_characteristic_update_map.subscribe(
            service,
            characteristic,
        );
        let request = if created {
            Some(
                PeripheralRequest::Indicate {
                    service: service.clone(),
                    characteristic: characteristic.clone(),
                },
            )
        } else {
            None
        };
        Ok(Subscription { subscriber, request })
    }

    /// Takes the transport's answer to a `Notify` or `Indicate` request
    /// and hands it on. A refusal takes the characteristic's bus away
    /// again, which ends what its subscribers read.
    pub fn subscribe_finished(
        &mut self,
        service: &String,
        characteristic: &String,
        outcome: Result<(), Error>,
    ) -> (result: Result<(), Error>)
        requires
            old(self).wf(),
            old(self)@.is_linked(),
        ensures
            final(self).wf(),
            result == outcome,
            final(self)@ == old(self)@.subscribe_finished(
                (service@, characteristic@),
                outcome is Ok,
            ),
    {
        if outcome.is_err() {
            self.on_characteristic_update_map.remove(service, characteristic);
            proof {
                if old(self)@.subscriptions == Subscriptions::empty() {
                    assert(self@.subscriptions =~= Subscriptions::empty());
                }
            }
        }
        outcome
    }

    /// Gives up the subscription to a characteristic: its bus goes, which
    /// ends what its subscribers read, and the transport is to be asked to
    /// unsubscribe. That is so wherever the connection is up, also while a
    /// disconnection is pending. Where it is not up, there is no bus, and
    /// the call is rejected and changes nothing.
    pub fn unsubscribe(&mut self, service: &String, characteristic: &String) -> (result: Result<
        PeripheralRequest,
        Error,
    >)
        requires
            old(self).wf(),
            old(self)@.is_linked(),
        ensures
            final(self).wf(),
            final(self)@ == old(self)@.unsubscribed((service@, characteristic@)),
            match result {
                Ok(request) => old(self)@.is_up() && request@
                    == (PeripheralRequestView::Unsubscribe {
                    service: service@,
                    characteristic: characteristic@,
                }),
                Err(error) => !old(self)@.is_up() && error@ == not_connected_text(),
            },
    {
        if self.state != ConnectionState::Connected && self.state
            != ConnectionState::Disconnecting {
            return Err(not_connected());
        }
        self.on_characteristic_update_map.remove(service, characteristic);
        Ok(
            PeripheralRequest::Unsubscribe {
                service: service.clone(),
                characteristic: characteristic.clone(),
            },
        )
    }

    /// The transport reports a new value of a characteristic. It is
    /// published once on the characteristic's bus; where the
    /// characteristic has no bus, the value is dropped and nothing changes.
    pub fn on_callback_characteristic_updated(
        &mut self,
        service: &String,
        characteristic: &String,
        data: &Vec<u8>,
    )
        requires
            old(self).wf(),
            old(self)@.is_linked(),
        ensures
            final(self).wf(),
            final(self)@ == old(self)@.value_updated((service@, characteristic@), data@),
    {
        let published = self.on_characteristic_update_map.publish(service, characteristic, data);
        proof {
            if published {
                assert(self@.subscriptions.contains_key((service@, characteristic@)));
                assert(old(self)@.subscriptions.contains_key((service@, characteristic@)));
            }
        }
    }
}

/// Every step keeps a well-formed peripheral well-formed.
pub proof fn lemma_steps_keep_wf(
    peripheral: PeripheralView,
    key: SubscriptionKey,
    data: Seq<u8>,
    succeeded: bool,
)
    requires
        peripheral.wf(),
    ensures
        peripheral.connected().wf(),
        peripheral.disconnected().wf(),
        peripheral.connection_reported(succeeded).wf(),
        peripheral.connect_requested().wf(),
        peripheral.connect_finished(succeeded).wf(),
        peripheral.disconnect_requested().wf(),
        peripheral.disconnect_finished(succeeded).wf(),
        peripheral.subscribed(key).wf(),
        peripheral.subscribe_finished(key, succeeded).wf(),
        peripheral.unsubscribed(key).wf(),
        peripheral.value_updated(key, data).wf(),
{
    if !peripheral.is_up() {
        assert(peripheral.subscriptions.remove(key) =~= Subscriptions::empty());
    }
}

/// Once a characteristic is unsubscribed it has no bus, and a value that
/// the transport reports for it afterwards is published nowhere: the
/// report changes nothing.
pub proof fn lemma_update_after_unsubscribe_is_dropped(
    peripheral: PeripheralView,
    key: SubscriptionKey,
    data: Seq<u8>,
)
    requires
        peripheral.wf(),
    ensures
        !peripheral.unsubscribed(key).subscriptions.contains_key(key),
        peripheral.unsubscribed(key).value_updated(key, data) == peripheral.unsubscribed(key),
        forall|other: SubscriptionKey|
            other != key ==> (peripheral.unsubscribed(key).subscriptions.contains_key(other)
                <==> peripheral.subscriptions.contains_key(other)),
        forall|other: SubscriptionKey|
            other != key && peripheral.subscriptions.contains_key(other)
                ==> peripheral.unsubscribed(key).subscriptions[other]
                == peripheral.subscriptions[other],
{
}

/// Values that the transport reports of a subscribed characteristic are
/// published on its bus in the order of the reports, each once, and change
/// nothing else; of a characteristic without a bus they change nothing.
pub proof fn lemma_reported_values_are_published_in_order(
    peripheral: PeripheralView,
    key: SubscriptionKey,
    values: Seq<Seq<u8>>,
)
    ensures
        peripheral.values_updated(key, values) == if peripheral.subscriptions.contains_key(key) {
            PeripheralView {
                subscriptions: peripheral.subscriptions.insert(
                    key,
                    peripheral.subscriptions[key] + values,
                ),
                ..peripheral
            }
        } else {
            peripheral
        },
    decreases values.len(),
{
    if values.len() == 0 {
        if peripheral.subscriptions.contains_key(key) {
            assert(peripheral.subscriptions[key] + values =~= peripheral.subscriptions[key]);
            assert(peripheral.subscriptions.insert(key, peripheral.subscriptions[key])
                =~= peripheral.subscriptions);
        }
    } else {
        lemma_reported_values_are_published_in_order(peripheral, key, values.drop_last());
        if peripheral.subscriptions.contains_key(key) {
            let carried = peripheral.subscriptions[key];
            assert((carried + values.drop_last()).push(values.last()) =~= carried + values);
            assert(peripheral.subscriptions.insert(key, carried + values.drop_last()).insert(
                key,
                carried + values,
            ) =~= peripheral.subscriptions.insert(key, carried + values));
        }
    }
}

/// A subscription that is given up leaves nothing behind: subscribing to a
/// characteristic that had no bus and unsubscribing again gives the
/// subscriptions that were there before, however often it is done.
pub proof fn lemma_unsubscribe_undoes_subscribe(peripheral: PeripheralView, key: SubscriptionKey)
    requires
        !peripheral.subscriptions.contains_key(key),
    ensures
        peripheral.subscribed(key).unsubscribed(key) == peripheral,
{
    assert(peripheral.subscriptions.remove(key) =~= peripheral.subscriptions);
    assert(peripheral.subscriptions.insert(key, Seq::empty()).remove(key)
        =~= peripheral.subscriptions);
}

/// A second subscription to a characteristic uses the bus of the first and
/// asks nothing of the transport. A value that the transport then reports
/// is published on that bus exactly once, and on no other.
pub proof fn lemma_second_subscription_shares_bus(
    peripheral: PeripheralView,
    key: SubscriptionKey,
    data: Seq<u8>,
)
    requires
        peripheral.is_connected(),
    ensures
        peripheral.subscribed(key).subscriptions.contains_key(key),
        !peripheral.subscribed(key).needs_transport(key),
        peripheral.subscribed(key).subscribed(key) == peripheral.subscribed(key),
        peripheral.subscribed(key).value_updated(key, data).subscriptions
            == peripheral.subscribed(key).subscriptions.insert(
            key,
            peripheral.subscribed(key).subscriptions[key].push(data),
        ),
{
}

/// A connection that the transport establishes on request leaves the
/// peripheral connected, and its observers are sent `Connected` exactly
/// once, by the transport's callback, whether that comes before the
/// transport's answer or after it.
pub proof fn lemma_connect_is_announced_once(peripheral: PeripheralView, callback_first: bool)
    requires
        peripheral.state == ConnectionState::Disconnected,
    ensures
        ({
            let pending = peripheral.connect_requested();
            let answered = if callback_first {
                pending.connected().connect_finished(true)
            } else {
                pending.connect_finished(true).connected()
            };
            &&& pending.connect_finished(true).is_connected()
            &&& answered.is_connected()
            &&& answered.connection_events == peripheral.connection_events.push(
                ConnectionEvent::Connected,
            )
        }),
{
}

/// A disconnection that the transport carries out on request leaves the
/// peripheral disconnected and without subscriptions, and its observers
/// are sent `Disconnected` exactly once, by the transport's callback,
/// whether that comes before the transport's answer or after it.
pub proof fn lemma_disconnect_is_announced_once(peripheral: PeripheralView, callback_first: bool)
    requires
        peripheral.state == ConnectionState::Connected,
    ensures
        ({
            let pending = peripheral.disconnect_requested();
            let answered = if callback_first {
                pending.disconnected().disconnect_finished(true)
            } else {
                pending.disconnect_finished(true).disconnected()
            };
            &&& !pending.disconnect_finished(true).is_connected()
            &&& !answered.is_connected()
            &&& answered.state == ConnectionState::Disconnected
            &&& answered.subscriptions == Subscriptions::empty()
            &&& answered.connection_events == peripheral.connection_events.push(
                ConnectionEvent::Disconnected,
            )
        }),
{
}

/// Two discoveries that found the same give trees that hold the same,
/// each with services of its own.
pub proof fn lemma_equal_discoveries_give_equal_trees(
    first_found: Seq<InnerService>,
    first_tree: Seq<PublicService>,
    second_found: Seq<InnerService>,
    second_tree: Seq<PublicService>,
)
    requires
        public_service_views(first_tree) == service_views(first_found),
        public_service_views(second_tree) == service_views(second_found),
        service_views(first_found) == service_views(second_found),
    ensures
        public_service_views(first_tree) == public_service_views(second_tree),
        first_tree.len() == second_tree.len(),
        forall|i: int| 0 <= i < first_tree.len() ==> first_tree[i]@ == second_tree[i]@,
{
    assert(public_service_views(first_tree).len() == first_tree.len());
    assert(public_service_views(second_tree).len() == second_tree.len());
    assert forall|i: int| 0 <= i < first_tree.len() implies first_tree[i]@ == second_tree[i]@ by {
        assert(public_service_views(first_tree)[i] == first_tree[i]@);
        assert(public_service_views(second_tree)[i] == second_tree[i]@);
    }
}

} // verus!
