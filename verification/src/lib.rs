//! Core of a host-side Bluetooth Low Energy central: the attribute tree,
//! the event buses, and the adapter and peripheral state machines.
//!
//! The platform transport is not part of this crate. An operation that
//! needs the radio is split in two: a first call that checks the state and
//! names the request for the transport, and a second call, ending in
//! `_finished`, that takes the transport's answer and commits it. A plain
//! query takes the transport's answer as its argument, records it and
//! hands it on. What the transport reports on its own goes to the
//! `on_callback_` functions.

pub mod adapter;
pub mod characteristic;
pub mod descriptor;
pub mod event_bus;
pub mod info;
pub mod link;
pub mod peripheral;
pub mod registry;
pub mod service;
pub mod shared;
pub mod subscriptions;
pub mod types;

pub use adapter::{AdapterHandle, AdapterRequest, InnerAdapter, ScanEvent};
pub use characteristic::{Characteristic, InnerCharacteristic};
pub use descriptor::{InnerDescriptor, PublicDescriptor};
pub use event_bus::{lag_error, EventBus, Received, Subscriber, BUS_CAPACITY};
pub use info::{ManufacturerData, PeripheralInfo};
pub use link::{BackendLink, LinkState};
pub use peripheral::{
    ConnectionEvent, ConnectionState, InnerPeripheral, PeripheralHandle, PeripheralRequest,
    Subscription, ValueChangedEvent,
};
pub use service::{InnerService, PublicService};
pub use shared::{Peripheral, PublicAdapter};
pub use types::{BluetoothAddressType, CharacteristicCapability, Error};
