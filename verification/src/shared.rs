use crate::adapter::{
    adapter_links, AdapterHandle, AdapterRequest, AdapterView, InnerAdapter, ScanEvent,
};
use crate::link::first_refusal;
use crate::event_bus::Subscriber;
use crate::info::{
    byte_map, manufacturer_map, manufacturer_views, ManufacturerData, PeripheralInfo,
    PeripheralInfoView,
};
use crate::peripheral::{
    not_connected_text, not_disconnected_text, peripheral_links, ConnectionEvent, ConnectionState,
    InnerPeripheral, PeripheralHandle, PeripheralRequest, PeripheralRequestView, Subscription,
};
use crate::registry::{distinct_addresses, info_views};
use crate::service::{public_service_views, service_views, InnerService, PublicService};
use crate::types::{BluetoothAddressType, Error};
use std::collections::HashMap;
use std::sync::Arc;
use vstd::prelude::*;
use vstd::rwlock::{RwLock, RwLockPredicate};

verus! {

/// `Arc::try_unwrap`: the value behind the handle where no other handle on
/// it is left, and otherwise the handle as it came. Which of the two it is
/// depends on the other holders.
#[verifier::external_body]
fn sole_holder<T>(shared: Arc<T>) -> (result: Result<T, Arc<T>>)
    ensures
        match result {
            Ok(value) => value == *shared,
            Err(back) => back == shared,
        },
{
    Arc::try_unwrap(shared)
}

/// Who a shared peripheral is, and what its lock keeps true of the
/// peripheral in it: it is well-formed, linked, and the same peripheral
/// throughout.
pub struct LinkedPeripheral {
    pub identifier: Seq<char>,
    pub address: Seq<char>,
    pub kind: BluetoothAddressType,
}

impl LinkedPeripheral {
    /// Who the peripheral of `info` is.
    pub open spec fn of(info: PeripheralInfoView) -> LinkedPeripheral {
        LinkedPeripheral { identifier: info.identifier, address: info.address, kind: info.kind() }
    }
}

impl RwLockPredicate<InnerPeripheral> for LinkedPeripheral {
    open spec fn inv(self, peripheral: InnerPeripheral) -> bool {
        &&& peripheral.wf()
        &&& peripheral@.is_linked()
        &&& LinkedPeripheral::of(peripheral@.info) == self
    }
}

/// A peripheral that several holders share. Every operation takes the
/// peripheral's lock for as long as it runs and no longer, so that the
/// transport's callbacks and the holders' calls come one after the other.
///
/// What an operation finds depends on what the other holders did before
/// it: of its result only that much is stated as holds whatever they did.
/// The view is who the peripheral is, which never changes.
#[derive(Clone)]
pub struct Peripheral {
    inner: Arc<RwLock<InnerPeripheral, LinkedPeripheral>>,
}

impl View for Peripheral {
    type V = LinkedPeripheral;

    closed spec fn view(&self) -> LinkedPeripheral {
        self.inner.pred()
    }
}

impl Peripheral {
    /// Puts a linked peripheral behind a lock and a shared handle. One
    /// that is not linked is handed back.
    pub fn new(peripheral: InnerPeripheral) -> (shared: Result<Self, InnerPeripheral>)
        requires
            peripheral.wf(),
        ensures
            match shared {
                Ok(handle) => peripheral@.is_linked() && handle@ == LinkedPeripheral::of(
                    peripheral@.info,
                ),
                Err(unlinked) => !peripheral@.is_linked() && unlinked == peripheral,
            },
    {
        if peripheral.is_linked() {
            Ok(Peripheral::share(peripheral))
        } else {
            Err(peripheral)
        }
    }

    fn share(peripheral: InnerPeripheral) -> (shared: Self)
        requires
            peripheral.wf(),
            peripheral@.is_linked(),
        ensures
            shared@ == LinkedPeripheral::of(peripheral@.info),
    {
        let ghost who = LinkedPeripheral::of(peripheral@.info);
        Peripheral { inner: Arc::new(RwLock::new(peripheral, Ghost(who))) }
    }

    /// Ends the sharing: where this is the last handle, the peripheral
    /// comes out from behind its lock, linked as it was kept, so that its
    /// owner can unlink it; where other holders are left, the handle comes
    /// back as it was.
    pub fn into_inner(self) -> (result: Result<InnerPeripheral, Peripheral>)
        ensures
            match result {
                Ok(peripheral) => peripheral.wf() && peripheral@.is_linked()
                    && LinkedPeripheral::of(peripheral@.info) == self@,
                Err(shared) => shared@ == self@,
            },
    {
        match sole_holder(self.inner) {
            Ok(lock) => Ok(lock.into_inner()),
            Err(inner) => Err(Peripheral { inner }),
        }
    }

    /// Makes the shared peripheral of which `info` is known, connected or
    /// disconnected as the transport says, given the transport's answer to
    /// its registration. A refused registration is the error of the
    /// constructor: then no peripheral is made.
    pub fn linked(info: PeripheralInfo, connected: bool, link: Result<(), Error>) -> (result:
        Result<Self, Error>)
        ensures
            match link {
                Ok(_) => result matches Ok(handle) && handle@ == LinkedPeripheral::of(info@),
                Err(error) => result == Err::<Self, Error>(error),
            },
    {
        let mut peripheral = InnerPeripheral::new(info, connected);
        match peripheral.link(link) {
            Ok(_) => Ok(Peripheral::share(peripheral)),
            Err(error) => Err(error),
        }
    }

    pub fn identifier(&self) -> (result: Result<String, Error>)
        ensures
            result matches Ok(identifier) && identifier@ == self@.identifier,
    {
        let handle = self.inner.acquire_read();
        let result = handle.borrow().identifier();
        handle.release_read();
        result
    }

    pub fn address(&self) -> (result: Result<String, Error>)
        ensures
            result matches Ok(address) && address@ == self@.address,
    {
        let handle = self.inner.acquire_read();
        let result = handle.borrow().address();
        handle.release_read();
        result
    }

    /// Decodes what the transport answered when asked for the address
    /// type: see `InnerPeripheral::address_type`.
    pub fn address_type(&self, answer: Result<i32, Error>) -> (result: Result<
        BluetoothAddressType,
        Error,
    >)
        ensures
            match answer {
                Ok(raw) => result == Ok::<BluetoothAddressType, Error>(
                    BluetoothAddressType::decode(raw),
                ),
                Err(error) => result == Err::<BluetoothAddressType, Error>(error),
            },
    {
        let handle = self.inner.acquire_read();
        let result = handle.borrow().address_type(answer);
        handle.release_read();
        result
    }

    /// Takes what the transport answered when asked for the signal
    /// strength, records it and hands it on: see `InnerPeripheral::rssi`.
    pub fn rssi(&self, answer: Result<i16, Error>) -> (result: Result<i16, Error>)
        ensures
            result == answer,
    {
        let (mut peripheral, handle) = self.inner.acquire_write();
        let result = peripheral.rssi(answer);
        handle.release_write(peripheral);
        result
    }

    /// Takes what the transport answered when asked for the transmit
    /// power, records it and hands it on: see `InnerPeripheral::tx_power`.
    pub fn tx_power(&self, answer: Result<i16, Error>) -> (result: Result<i16, Error>)
        ensures
            result == answer,
    {
        let (mut peripheral, handle) = self.inner.acquire_write();
        let result = peripheral.tx_power(answer);
        handle.release_write(peripheral);
        result
    }

    /// Takes what the transport answered when asked for the MTU, records
    /// it and hands it on: see `InnerPeripheral::mtu`.
    pub fn mtu(&self, answer: Result<u16, Error>) -> (result: Result<u16, Error>)
        ensures
            result == answer,
    {
        let (mut peripheral, handle) = self.inner.acquire_write();
        let result = peripheral.mtu(answer);
        handle.release_write(peripheral);
        result
    }

    /// Takes what the transport answered when asked whether the peripheral
    /// is connected, lets the peripheral follow it and hands it on: see
    /// `InnerPeripheral::is_connected`.
    pub fn is_connected(&self, answer: Result<bool, Error>) -> (result: Result<bool, Error>)
        ensures
            result == answer,
    {
        let (mut peripheral, handle) = self.inner.acquire_write();
        let result = peripheral.is_connected(answer);
        handle.release_write(peripheral);
        result
    }

    /// Takes what the transport answered when asked whether the peripheral
    /// is connectable, records it and hands it on: see
    /// `InnerPeripheral::is_connectable`.
    pub fn is_connectable(&self, answer: Result<bool, Error>) -> (result: Result<bool, Error>)
        ensures
            result == answer,
    {
        let (mut peripheral, handle) = self.inner.acquire_write();
        let result = peripheral.is_connectable(answer);
        handle.release_write(peripheral);
        result
    }

    /// Takes what the transport answered when asked whether the peripheral
    /// is paired, records it and hands it on: see
    /// `InnerPeripheral::is_paired`.
    pub fn is_paired(&self, answer: Result<bool, Error>) -> (result: Result<bool, Error>)
        ensures
            result == answer,
    {
        let (mut peripheral, handle) = self.inner.acquire_write();
        let result = peripheral.is_paired(answer);
        handle.release_write(peripheral);
        result
    }

    /// Takes the manufacturer blocks that the transport answered with,
    /// records them and gives them by company: see
    /// `InnerPeripheral::manufacturer_data`.
    pub fn manufacturer_data(&self, answer: Result<Vec<ManufacturerData>, Error>) -> (result:
        Result<HashMap<u16, Vec<u8>>, Error>)
        ensures
            match answer {
                Ok(blocks) => result matches Ok(by_company) && byte_map(by_company@)
                    == manufacturer_map(manufacturer_views(blocks@)),
                Err(error) => result == Err::<HashMap<u16, Vec<u8>>, Error>(error),
            },
    {
        let (mut peripheral, handle) = self.inner.acquire_write();
        let result = peripheral.manufacturer_data(answer);
        handle.release_write(peripheral);
        result
    }

    /// The state of the connection as the peripheral takes it to be now.
    pub fn connection_state(&self) -> (state: ConnectionState) {
        let handle = self.inner.acquire_read();
        let state = handle.borrow().connection_state();
        handle.release_read();
        state
    }

    /// What is known of the peripheral now, as a copy.
    pub fn info(&self) -> (info: PeripheralInfo)
        ensures
            LinkedPeripheral::of(info@) == self@,
    {
        let handle = self.inner.acquire_read();
        let info = handle.borrow().info();
        handle.release_read();
        info
    }

    /// Takes over a later report of this peripheral: see
    /// `InnerPeripheral::update`.
    pub fn update(&self, latest: PeripheralInfo) {
        let (mut peripheral, handle) = self.inner.acquire_write();
        peripheral.update(latest);
        handle.release_write(peripheral);
    }

    /// Starts a connection: see `InnerPeripheral::connect`.
    pub fn connect(&self) -> (result: Result<PeripheralRequest, Error>)
        ensures
            match result {
                Ok(request) => request@ == PeripheralRequestView::Connect,
                Err(error) => error@ == not_disconnected_text(),
            },
    {
        let (mut peripheral, handle) = self.inner.acquire_write();
        let result = peripheral.connect();
        handle.release_write(peripheral);
        result
    }

    /// Takes the transport's answer to a connection request and hands it
    /// on: see `InnerPeripheral::connect_finished`.
    pub fn connect_finished(&self, outcome: Result<(), Error>) -> (result: Result<(), Error>)
        ensures
            result == outcome,
    {
        let (mut peripheral, handle) = self.inner.acquire_write();
        let result = peripheral.connect_finished(outcome);
        handle.release_write(peripheral);
        result
    }

    /// Starts a disconnection: see `InnerPeripheral::disconnect`.
    pub fn disconnect(&self) -> (result: Result<PeripheralRequest, Error>)
        ensures
            match result {
                Ok(request) => request@ == PeripheralRequestView::Disconnect,
                Err(error) => error@ == not_connected_text(),
            },
    {
        let (mut peripheral, handle) = self.inner.acquire_write();
        let result = peripheral.disconnect();
        handle.release_write(peripheral);
        result
    }

    /// Takes the transport's answer to a disconnection request and hands
    /// it on: see `InnerPeripheral::disconnect_finished`.
    pub fn disconnect_finished(&self, outcome: Result<(), Error>) -> (result: Result<(), Error>)
        ensures
            result == outcome,
    {
        let (mut peripheral, handle) = self.inner.acquire_write();
        let result = peripheral.disconnect_finished(outcome);
        handle.release_write(peripheral);
        result
    }

    /// The request to forget the pairing with this peripheral.
    pub fn unpair(&self) -> (result: Result<PeripheralRequest, Error>)
        ensures
            result matches Ok(request) && request@ == PeripheralRequestView::Unpair,
    {
        let handle = self.inner.acquire_read();
        let result = handle.borrow().unpair();
        handle.release_read();
        result
    }

    /// Takes the transport's answer to an unpair request and hands it on:
    /// see `InnerPeripheral::unpair_finished`.
    pub fn unpair_finished(&self, outcome: Result<(), Error>) -> (result: Result<(), Error>)
        ensures
            result == outcome,
    {
        let (mut peripheral, handle) = self.inner.acquire_write();
        let result = peripheral.unpair_finished(outcome);
        handle.release_write(peripheral);
        result
    }

    /// Builds the attribute tree from what a discovery by the transport
    /// returned: each service behind a shared handle of its own, in
    /// discovery order. A failed discovery is handed on.
    pub fn services(&self, discovered: Result<Vec<InnerService>, Error>) -> (result: Result<
        Vec<PublicService>,
        Error,
    >)
        ensures
            match discovered {
                Ok(tree) => result matches Ok(services) && public_service_views(services@)
                    == service_views(tree@),
                Err(error) => result == Err::<Vec<PublicService>, Error>(error),
            },
    {
        let handle = self.inner.acquire_read();
        let result = handle.borrow().services(discovered);
        handle.release_read();
        result
    }

    /// The request to read a characteristic, or the error that rejects it
    /// because the peripheral is not connected now.
    pub fn read(&self, service: &String, characteristic: &String) -> (result: Result<
        PeripheralRequest,
        Error,
    >)
        ensures
            match result {
                Ok(request) => request@ == (PeripheralRequestView::Read {
                    service: service@,
                    characteristic: characteristic@,
                }),
                Err(error) => error@ == not_connected_text(),
            },
    {
        let handle = self.inner.acquire_read();
        let result = handle.borrow().read(service, characteristic);
        handle.release_read();
        result
    }

    /// The request to write a characteristic with acknowledgement, or the
    /// error that rejects it because the peripheral is not connected now.
    pub fn write_request(&self, service: &String, characteristic: &String, data: &Vec<u8>) -> (result:
        Result<PeripheralRequest, Error>)
        ensures
            match result {
                Ok(request) => request@ == (PeripheralRequestView::WriteRequest {
                    service: service@,
                    characteristic: characteristic@,
                    data: data@,
                }),
                Err(error) => error@ == not_connected_text(),
            },
    {
        let handle = self.inner.acquire_read();
        let result = handle.borrow().write_request(service, characteristic, data);
        handle.release_read();
        result
    }

    /// The request to write a characteristic without acknowledgement, or
    /// the error that rejects it because the peripheral is not connected
    /// now.
    pub fn write_command(&self, service: &String, characteristic: &String, data: &Vec<u8>) -> (result:
        Result<PeripheralRequest, Error>)
        ensures
            match result {
                Ok(request) => request@ == (PeripheralRequestView::WriteCommand {
                    service: service@,
                    characteristic: characteristic@,
                    data: data@,
                }),
                Err(error) => error@ == not_connected_text(),
            },
    {
        let handle = self.inner.acquire_read();
        let result = handle.borrow().write_command(service, characteristic, data);
        handle.release_read();
        result
    }

    /// The request to read a descriptor, or the error that rejects it
    /// because the peripheral is not connected now.
    pub fn descriptor_read(
        &self,
        service: &String,
        characteristic: &String,
        descriptor: &String,
    ) -> (result: Result<PeripheralRequest, Error>)
        ensures
            match result {
                Ok(request) => request@ == (PeripheralRequestView::DescriptorRead {
                    service: service@,
                    characteristic: characteristic@,
                    descriptor: descriptor@,
                }),
                Err(error) => error@ == not_connected_text(),
            },
    {
        let handle = self.inner.acquire_read();
        let result = handle.borrow().descriptor_read(service, characteristic, descriptor);
        handle.release_read();
        result
    }

    /// The request to write a descriptor, or the error that rejects it
    /// because the peripheral is not connected now.
    pub fn descriptor_write(
        &self,
        service: &String,
        characteristic: &String,
        descriptor: &String,
        data: &Vec<u8>,
    ) -> (result: Result<PeripheralRequest, Error>)
        ensures
            match result {
                Ok(request) => request@ == (PeripheralRequestView::DescriptorWrite {
                    service: service@,
                    characteristic: characteristic@,
                    descriptor: descriptor@,
                    data: data@,
                }),
                Err(error) => error@ == not_connected_text(),
            },
    {
        let handle = self.inner.acquire_read();
        let result = handle.borrow().descriptor_write(service, characteristic, descriptor, data);
        handle.release_read();
        result
    }

    /// Subscribes to the notifications of a characteristic: see
    /// `InnerPeripheral::notify`. The lock is given back before the
    /// subscriber is handed out.
    pub fn notify(&self, service: &String, characteristic: &String) -> (result: Result<
        Subscription,
        Error,
    >)
        ensures
            match result {
                Ok(subscription) => subscription.subscriber.topic() == Some(
                    (service@, characteristic@),
                ) && (subscription.request matches Some(request) ==> request@ == (
                PeripheralRequestView::Notify {
                    service: service@,
                    characteristic: characteristic@,
                })),
                Err(error) => error@ == not_connected_text(),
            },
    {
        let (mut peripheral, handle) = self.inner.acquire_write();
        let result = peripheral.notify(service, characteristic);
        handle.release_write(peripheral);
        result
    }

    /// Subscribes to the indications of a characteristic: see
    /// `InnerPeripheral::indicate`. The lock is given back before the
    /// subscriber is handed out.
    pub fn indicate(&self, service: &String, characteristic: &String) -> (result: Result<
        Subscription,
        Error,
    >)
        ensures
            match result {
                Ok(subscription) => subscription.subscriber.topic() == Some(
                    (service@, characteristic@),
                ) && (subscription.request matches Some(request) ==> request@ == (
                PeripheralRequestView::Indicate {
                    service: service@,
                    characteristic: characteristic@,
                })),
                Err(error) => error@ == not_connected_text(),
            },
    {
        let (mut peripheral, handle) = self.inner.acquire_write();
        let result = peripheral.indicate(service, characteristic);
        handle.release_write(peripheral);
        result
    }

    /// Takes the transport's answer to a `Notify` or `Indicate` request
    /// and hands it on: see `InnerPeripheral::subscribe_finished`.
    pub fn subscribe_finished(
        &self,
        service: &String,
        characteristic: &String,
        outcome: Result<(), Error>,
    ) -> (result: Result<(), Error>)
        ensures
            result == outcome,
    {
        let (mut peripheral, handle) = self.inner.acquire_write();
        let result = peripheral.subscribe_finished(service, characteristic, outcome);
        handle.release_write(peripheral);
        result
    }

    /// Gives up the subscription to a characteristic: see
    /// `InnerPeripheral::unsubscribe`.
    pub fn unsubscribe(&self, service: &String, characteristic: &String) -> (result: Result<
        PeripheralRequest,
        Error,
    >)
        ensures
            match result {
                Ok(request) => request@ == (PeripheralRequestView::Unsubscribe {
                    service: service@,
                    characteristic: characteristic@,
                }),
                Err(error) => error@ == not_connected_text(),
            },
    {
        let (mut peripheral, handle) = self.inner.acquire_write();
        let result = peripheral.unsubscribe(service, characteristic);
        handle.release_write(peripheral);
        result
    }

    /// The transport reports that the connection is established.
    pub fn on_callback_connected(&self) {
        let (mut peripheral, handle) = self.inner.acquire_write();
        peripheral.on_callback_connected();
        handle.release_write(peripheral);
    }

    /// The transport reports that the connection is gone.
    pub fn on_callback_disconnected(&self) {
        let (mut peripheral, handle) = self.inner.acquire_write();
        peripheral.on_callback_disconnected();
        handle.release_write(peripheral);
    }

    /// The transport reports a new value of a characteristic.
    pub fn on_callback_characteristic_updated(
        &self,
        service: &String,
        characteristic: &String,
        data: &Vec<u8>,
    ) {
        let (mut peripheral, handle) = self.inner.acquire_write();
        peripheral.on_callback_characteristic_updated(service, characteristic, data);
        handle.release_write(peripheral);
    }

    /// A new subscriber on the peripheral's connection bus, which begins
    /// after the connection events published until the lock was taken.
    pub fn on_connection_event(&self) -> (subscriber: Subscriber<ConnectionEvent>)
        ensures
            subscriber.topic() is None,
    {
        let handle = self.inner.acquire_read();
        let subscriber = handle.borrow().on_connection_event();
        handle.release_read();
        subscriber
    }
}

/// Who a shared adapter is, and what its lock keeps true of the adapter in
/// it: it is well-formed, linked, and the same adapter throughout.
pub struct LinkedAdapter {
    pub identifier: Seq<char>,
    pub address: Seq<char>,
}

impl LinkedAdapter {
    /// Who the adapter of `adapter` is.
    pub open spec fn of(adapter: AdapterView) -> LinkedAdapter {
        LinkedAdapter { identifier: adapter.identifier, address: adapter.address }
    }
}

impl RwLockPredicate<InnerAdapter> for LinkedAdapter {
    open spec fn inv(self, adapter: InnerAdapter) -> bool {
        &&& adapter.wf()
        &&& adapter@.is_linked()
        &&& LinkedAdapter::of(adapter@) == self
    }
}

/// An adapter that several holders share. Every operation takes the
/// adapter's lock for as long as it runs and no longer.
///
/// What an operation finds depends on what the other holders did before
/// it: of its result only that much is stated as holds whatever they did.
/// The view is who the adapter is, which never changes.
#[derive(Clone)]
pub struct PublicAdapter {
    inner: Arc<RwLock<InnerAdapter, LinkedAdapter>>,
}

impl View for PublicAdapter {
    type V = LinkedAdapter;

    closed spec fn view(&self) -> LinkedAdapter {
        self.inner.pred()
    }
}

impl PublicAdapter {
    /// Puts a linked adapter behind a lock and a shared handle. One that
    /// is not linked is handed back.
    pub fn new(adapter: InnerAdapter) -> (shared: Result<Self, InnerAdapter>)
        requires
            adapter.wf(),
        ensures
            match shared {
                Ok(handle) => adapter@.is_linked() && handle@ == LinkedAdapter::of(adapter@),
                Err(unlinked) => !adapter@.is_linked() && unlinked == adapter,
            },
    {
        if adapter.is_linked() {
            Ok(PublicAdapter::share(adapter))
        } else {
            Err(adapter)
        }
    }

    fn share(adapter: InnerAdapter) -> (shared: Self)
        requires
            adapter.wf(),
            adapter@.is_linked(),
        ensures
            shared@ == LinkedAdapter::of(adapter@),
    {
        let ghost who = LinkedAdapter::of(adapter@);
        PublicAdapter { inner: Arc::new(RwLock::new(adapter, Ghost(who))) }
    }

    /// Ends the sharing: where this is the last handle, the adapter comes
    /// out from behind its lock, linked as it was kept, so that its owner
    /// can unlink it; where other holders are left, the handle comes back
    /// as it was.
    pub fn into_inner(self) -> (result: Result<InnerAdapter, PublicAdapter>)
        ensures
            match result {
                Ok(adapter) => adapter.wf() && adapter@.is_linked() && LinkedAdapter::of(adapter@)
                    == self@,
                Err(shared) => shared@ == self@,
            },
    {
        match sole_holder(self.inner) {
            Ok(lock) => Ok(lock.into_inner()),
            Err(inner) => Err(PublicAdapter { inner }),
        }
    }

    pub fn identifier(&self) -> (result: Result<String, Error>)
        ensures
            result matches Ok(identifier) && identifier@ == self@.identifier,
    {
        let handle = self.inner.acquire_read();
        let result = handle.borrow().identifier();
        handle.release_read();
        result
    }

    pub fn address(&self) -> (result: Result<String, Error>)
        ensures
            result matches Ok(address) && address@ == self@.address,
    {
        let handle = self.inner.acquire_read();
        let result = handle.borrow().address();
        handle.release_read();
        result
    }

    /// Starts a scan: see `InnerAdapter::scan_start`.
    pub fn scan_start(&self) -> (result: Result<AdapterRequest, Error>)
        ensures
            result matches Ok(request) && request == AdapterRequest::ScanStart,
    {
        let (mut adapter, handle) = self.inner.acquire_write();
        let result = adapter.scan_start();
        handle.release_write(adapter);
        result
    }

    /// Takes the transport's answer to a request to start scanning and
    /// hands it on: see `InnerAdapter::scan_start_finished`.
    pub fn scan_start_finished(&self, outcome: Result<(), Error>) -> (result: Result<(), Error>)
        ensures
            result == outcome,
    {
        let (mut adapter, handle) = self.inner.acquire_write();
        let result = adapter.scan_start_finished(outcome);
        handle.release_write(adapter);
        result
    }

    /// The request to stop scanning.
    pub fn scan_stop(&self) -> (result: Result<AdapterRequest, Error>)
        ensures
            result matches Ok(request) && request == AdapterRequest::ScanStop,
    {
        let handle = self.inner.acquire_read();
        let result = handle.borrow().scan_stop();
        handle.release_read();
        result
    }

    /// Takes the transport's answer to a request to stop scanning and
    /// hands it on: see `InnerAdapter::scan_stop_finished`.
    pub fn scan_stop_finished(&self, outcome: Result<(), Error>) -> (result: Result<(), Error>)
        ensures
            result == outcome,
    {
        let (mut adapter, handle) = self.inner.acquire_write();
        let result = adapter.scan_stop_finished(outcome);
        handle.release_write(adapter);
        result
    }

    /// Starts a scan of a fixed length: see `InnerAdapter::scan_for`. The
    /// lock is given back at once: whoever waits for the scan to end does
    /// not hold it.
    pub fn scan_for(&self, timeout_ms: i32) -> (result: Result<AdapterRequest, Error>)
        ensures
            result matches Ok(request) && request == (AdapterRequest::ScanFor { timeout_ms }),
    {
        let (mut adapter, handle) = self.inner.acquire_write();
        let result = adapter.scan_for(timeout_ms);
        handle.release_write(adapter);
        result
    }

    /// Takes the transport's answer to a request to scan for a while and
    /// hands it on: see `InnerAdapter::scan_for_finished`.
    pub fn scan_for_finished(&self, outcome: Result<(), Error>) -> (result: Result<(), Error>)
        ensures
            result == outcome,
    {
        let (mut adapter, handle) = self.inner.acquire_write();
        let result = adapter.scan_for_finished(outcome);
        handle.release_write(adapter);
        result
    }

    /// Takes what the transport answered when asked whether the adapter
    /// scans, lets the adapter follow it and hands it on: see
    /// `InnerAdapter::scan_is_active`.
    pub fn scan_is_active(&self, answer: Result<bool, Error>) -> (result: Result<bool, Error>)
        ensures
            result == answer,
    {
        let (mut adapter, handle) = self.inner.acquire_write();
        let result = adapter.scan_is_active(answer);
        handle.release_write(adapter);
        result
    }

    /// Whether the adapter scans, as far as it was told until now.
    pub fn is_scanning(&self) -> (scanning: bool) {
        let handle = self.inner.acquire_read();
        let scanning = handle.borrow().is_scanning();
        handle.release_read();
        scanning
    }

    /// The peripherals that are discovered now, each a copy that its
    /// holder owns, in the order in which they were first seen.
    pub fn scan_get_results(&self) -> (result: Result<Vec<PeripheralInfo>, Error>)
        ensures
            result matches Ok(peripherals) && distinct_addresses(info_views(peripherals@)),
    {
        let handle = self.inner.acquire_read();
        let result = handle.borrow().scan_get_results();
        handle.release_read();
        result
    }

    /// Makes the paired peripherals of what the transport handed over
    /// when asked for them, each behind a shared handle: see
    /// `InnerAdapter::public_get_paired_peripherals`.
    pub fn get_paired_peripherals(&self, fetched: Result<Vec<PeripheralHandle>, Error>) -> (result:
        Result<Vec<Peripheral>, Error>)
        ensures
            match fetched {
                Ok(handles) => match first_refusal(peripheral_links(handles@)) {
                    Some(at) => 0 <= at < handles.len() && result == Err::<Vec<Peripheral>, Error>(
                        handles[at].link->Err_0,
                    ),
                    None => result matches Ok(paired) && paired.len() == handles.len()
                        && forall|k: int|
                        0 <= k < paired.len() ==> (#[trigger] paired[k])@ == LinkedPeripheral::of(
                            handles[k].info@,
                        ),
                },
                Err(error) => result == Err::<Vec<Peripheral>, Error>(error),
            },
    {
        let handle = self.inner.acquire_read();
        let result = handle.borrow().public_get_paired_peripherals(fetched);
        handle.release_read();
        result
    }

    /// The transport reports that the scan has started.
    pub fn on_callback_scan_start(&self) {
        let (mut adapter, handle) = self.inner.acquire_write();
        adapter.on_callback_scan_start();
        handle.release_write(adapter);
    }

    /// The transport reports that the scan has stopped.
    pub fn on_callback_scan_stop(&self) {
        let (mut adapter, handle) = self.inner.acquire_write();
        adapter.on_callback_scan_stop();
        handle.release_write(adapter);
    }

    /// The transport reports a peripheral that it sees for the first time.
    /// The discovered set and the scan bus change under one hold of the
    /// lock.
    pub fn on_callback_scan_found(&self, peripheral: PeripheralInfo) {
        let (mut adapter, handle) = self.inner.acquire_write();
        adapter.on_callback_scan_found(peripheral);
        handle.release_write(adapter);
    }

    /// The transport reports a peripheral that has advertised again. The
    /// discovered set and the scan bus change under one hold of the lock.
    pub fn on_callback_scan_updated(&self, peripheral: PeripheralInfo) {
        let (mut adapter, handle) = self.inner.acquire_write();
        adapter.on_callback_scan_updated(peripheral);
        handle.release_write(adapter);
    }

    /// A new subscriber on the adapter's scan bus, which begins after the
    /// scan events published until the lock was taken.
    pub fn on_scan_event(&self) -> (subscriber: Subscriber<ScanEvent>)
        ensures
            subscriber.topic() is None,
    {
        let handle = self.inner.acquire_read();
        let subscriber = handle.borrow().on_scan_event();
        handle.release_read();
        subscriber
    }
}

impl InnerAdapter {
    /// Makes the paired peripherals of what the transport handed over
    /// when asked for them: one peripheral for each handle, in the
    /// transport's order, each one linked and behind a shared handle. A
    /// failed query is handed on, and so is the first refused
    /// registration: then no peripheral is returned.
    pub fn public_get_paired_peripherals(
        &self,
        fetched: Result<Vec<PeripheralHandle>, Error>,
    ) -> (result: Result<Vec<Peripheral>, Error>)
        ensures
            match fetched {
                Ok(handles) => match first_refusal(peripheral_links(handles@)) {
                    Some(at) => 0 <= at < handles.len() && result == Err::<Vec<Peripheral>, Error>(
                        handles[at].link->Err_0,
                    ),
                    None => result matches Ok(paired) && paired.len() == handles.len()
                        && forall|k: int|
                        0 <= k < paired.len() ==> (#[trigger] paired[k])@ == LinkedPeripheral::of(
                            handles[k].info@,
                        ),
                },
                Err(error) => result == Err::<Vec<Peripheral>, Error>(error),
            },
    {
        match self.get_paired_peripherals(fetched) {
            Ok(linked) => {
                let mut linked = linked;
                let ghost all = linked@;
                let mut paired: Vec<Peripheral> = Vec::new();
                while linked.len() > 0
                    invariant
                        paired.len() + linked.len() == all.len(),
                        linked@ == all.subrange(paired.len() as int, all.len() as int),
                        forall|k: int|
                            0 <= k < all.len() ==> (#[trigger] all[k]).wf() && all[k]@.is_linked(),
                        forall|k: int|
                            0 <= k < paired.len() ==> (#[trigger] paired[k])@
                                == LinkedPeripheral::of(all[k]@.info),
                    decreases linked.len(),
                {
                    let peripheral = linked.remove(0);
                    assert(peripheral == all[paired.len() as int]);
                    assert(linked@ =~= all.subrange(paired.len() + 1, all.len() as int));
                    paired.push(Peripheral::share(peripheral));
                }
                Ok(paired)
            },
            Err(error) => Err(error),
        }
    }

    /// Makes the adapters of what the transport's enumeration handed over,
    /// in its order, each one linked and behind a shared handle. A failed
    /// enumeration is handed on, and so is the first refused registration:
    /// then no adapter is returned.
    pub fn public_get_adapters(enumerated: Result<Vec<AdapterHandle>, Error>) -> (result: Result<
        Vec<PublicAdapter>,
        Error,
    >)
        ensures
            match enumerated {
                Ok(handles) => match first_refusal(adapter_links(handles@)) {
                    Some(at) => 0 <= at < handles.len() && result == Err::<
                        Vec<PublicAdapter>,
                        Error,
                    >(handles[at].link->Err_0),
                    None => result matches Ok(adapters) && adapters.len() == handles.len()
                        && forall|k: int|
                        0 <= k < adapters.len() ==> (#[trigger] adapters[k])@ == (LinkedAdapter {
                            identifier: handles[k].identifier@,
                            address: handles[k].address@,
                        }),
                },
                Err(error) => result == Err::<Vec<PublicAdapter>, Error>(error),
            },
    {
        match InnerAdapter::get_adapters(enumerated) {
            Ok(linked) => {
                let mut linked = linked;
                let ghost all = linked@;
                let mut adapters: Vec<PublicAdapter> = Vec::new();
                while linked.len() > 0
                    invariant
                        adapters.len() + linked.len() == all.len(),
                        linked@ == all.subrange(adapters.len() as int, all.len() as int),
                        forall|k: int|
                            0 <= k < all.len() ==> (#[trigger] all[k]).wf() && all[k]@.is_linked(),
                        forall|k: int|
                            0 <= k < adapters.len() ==> (#[trigger] adapters[k])@
                                == LinkedAdapter::of(all[k]@),
                    decreases linked.len(),
                {
                    let adapter = linked.remove(0);
                    assert(adapter == all[adapters.len() as int]);
                    assert(linked@ =~= all.subrange(adapters.len() + 1, all.len() as int));
                    adapters.push(PublicAdapter::share(adapter));
                }
                Ok(adapters)
            },
            Err(error) => Err(error),
        }
    }
}

} // verus!
