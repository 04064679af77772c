use simplersble::{
    BluetoothAddressType, ConnectionEvent, ConnectionState, Error, InnerCharacteristic,
    InnerDescriptor, InnerPeripheral, InnerService, ManufacturerData, PeripheralHandle,
    PeripheralInfo, PeripheralRequest, Received, Subscriber, ValueChangedEvent,
};

const SERVICE: &str = "0000180d-0000-1000-8000-00805f9b34fb";
const MEASUREMENT: &str = "00002a37-0000-1000-8000-00805f9b34fb";
const CONTROL: &str = "00002a39-0000-1000-8000-00805f9b34fb";
const CONFIG: &str = "00002902-0000-1000-8000-00805f9b34fb";

fn text(s: &str) -> String {
    String::from(s)
}

fn info() -> PeripheralInfo {
    PeripheralInfo {
        identifier: text("Polar H10"),
        address: text("C8:5E:1A:00:00:01"),
        address_type: 1,
        rssi: Some(-60),
        tx_power: Some(4),
        mtu: Some(23),
        connectable: Some(true),
        paired: Some(true),
        manufacturer_data: Some(blocks()),
    }
}

fn blocks() -> Vec<ManufacturerData> {
    vec![
        ManufacturerData { company_id: 0x006b, data: vec![1, 2] },
        ManufacturerData { company_id: 0x004c, data: vec![9] },
        ManufacturerData { company_id: 0x006b, data: vec![3, 4, 5] },
    ]
}

fn is_connected(peripheral: &InnerPeripheral) -> bool {
    peripheral.connection_state() == ConnectionState::Connected
}

fn linked() -> InnerPeripheral {
    let mut peripheral = InnerPeripheral::new(info(), false);
    assert!(peripheral.link(Ok(())).is_ok());
    peripheral
}

fn connected() -> InnerPeripheral {
    let mut peripheral = linked();
    assert!(matches!(peripheral.connect(), Ok(PeripheralRequest::Connect)));
    assert!(peripheral.connect_finished(Ok(())).is_ok());
    peripheral
}

fn values(subscriber: &mut Subscriber<ValueChangedEvent>) -> Vec<Vec<u8>> {
    let mut seen = Vec::new();
    while let Received::Event(ValueChangedEvent::ValueUpdated(data)) = subscriber.try_next() {
        seen.push(data);
    }
    seen
}

fn connection_events(subscriber: &mut Subscriber<ConnectionEvent>) -> Vec<ConnectionEvent> {
    let mut seen = Vec::new();
    while let Received::Event(event) = subscriber.try_next() {
        seen.push(event);
    }
    seen
}

fn message(result: Result<PeripheralRequest, Error>) -> String {
    match result {
        Ok(_) => panic!("the call was not rejected"),
        Err(error) => error.message(),
    }
}

#[test]
fn new_peripheral_is_unlinked_and_disconnected() {
    let peripheral = InnerPeripheral::new(info(), false);
    assert!(!peripheral.is_linked());
    assert_eq!(peripheral.connection_state(), ConnectionState::Disconnected);
    assert_eq!(is_connected(&peripheral), false);
}

#[test]
fn link_refusal_is_handed_on() {
    let mut peripheral = InnerPeripheral::new(info(), false);
    let result = peripheral.link(Err(Error::from_string(text("no such device"))));
    assert_eq!(result.unwrap_err().message(), "no such device");
    assert!(!peripheral.is_linked());
}

#[test]
fn unlink_releases_and_hands_failure_on() {
    let mut peripheral = linked();
    assert!(peripheral.is_linked());
    let result = peripheral.unlink(Err(Error::from_string(text("already gone"))));
    assert_eq!(result.unwrap_err().message(), "already gone");
    assert!(!peripheral.is_linked());
    let mut other = linked();
    assert!(other.unlink(Ok(())).is_ok());
    assert!(!other.is_linked());
}

#[test]
fn peripheral_reports_what_is_known_of_it() {
    let peripheral = linked();
    assert_eq!(peripheral.identifier().unwrap(), "Polar H10");
    assert_eq!(peripheral.address().unwrap(), "C8:5E:1A:00:00:01");
    let known = peripheral.info();
    assert_eq!(known.identifier, "Polar H10");
    assert_eq!(known.address_type, 1);
    assert_eq!(known.rssi, Some(-60));
    assert_eq!(known.tx_power, Some(4));
    assert_eq!(known.mtu, Some(23));
    assert_eq!(known.connectable, Some(true));
    assert_eq!(known.paired, Some(true));
    assert_eq!(known.manufacturer_data.unwrap().len(), 3);
}

#[test]
fn address_type_is_decoded_from_the_answer() {
    let peripheral = linked();
    assert_eq!(peripheral.address_type(Ok(0)).unwrap(), BluetoothAddressType::Public);
    assert_eq!(peripheral.address_type(Ok(1)).unwrap(), BluetoothAddressType::Random);
    assert_eq!(peripheral.address_type(Ok(2)).unwrap(), BluetoothAddressType::Unspecified);
    assert_eq!(peripheral.address_type(Ok(17)).unwrap(), BluetoothAddressType::Unspecified);
    assert_eq!(peripheral.address_type(Ok(-1)).unwrap(), BluetoothAddressType::Unspecified);
    let failed = peripheral.address_type(Err(Error::from_string(text("no address"))));
    assert_eq!(failed.unwrap_err().message(), "no address");
}

#[test]
fn answers_are_recorded_and_handed_on() {
    let mut peripheral = linked();
    assert_eq!(peripheral.rssi(Ok(-42)).unwrap(), -42);
    assert_eq!(peripheral.tx_power(Ok(8)).unwrap(), 8);
    assert_eq!(peripheral.mtu(Ok(247)).unwrap(), 247);
    assert_eq!(peripheral.is_connectable(Ok(false)).unwrap(), false);
    assert_eq!(peripheral.is_paired(Ok(false)).unwrap(), false);
    let known = peripheral.info();
    assert_eq!(known.rssi, Some(-42));
    assert_eq!(known.tx_power, Some(8));
    assert_eq!(known.mtu, Some(247));
    assert_eq!(known.connectable, Some(false));
    assert_eq!(known.paired, Some(false));
}

#[test]
fn failed_queries_are_handed_on_and_leave_what_was_known() {
    let mut peripheral = linked();
    let failure = |what: &str| Error::from_string(text(what));
    assert_eq!(peripheral.rssi(Err(failure("no rssi"))).unwrap_err().message(), "no rssi");
    assert_eq!(peripheral.tx_power(Err(failure("no power"))).unwrap_err().message(), "no power");
    assert_eq!(peripheral.mtu(Err(failure("no mtu"))).unwrap_err().message(), "no mtu");
    assert_eq!(
        peripheral.is_connectable(Err(failure("unknown"))).unwrap_err().message(),
        "unknown"
    );
    assert_eq!(peripheral.is_paired(Err(failure("denied"))).unwrap_err().message(), "denied");
    assert_eq!(
        peripheral.manufacturer_data(Err(failure("no data"))).unwrap_err().message(),
        "no data"
    );
    assert_eq!(
        peripheral.is_connected(Err(failure("gone"))).unwrap_err().message(),
        "gone"
    );
    let known = peripheral.info();
    assert_eq!(known.rssi, Some(-60));
    assert_eq!(known.tx_power, Some(4));
    assert_eq!(known.mtu, Some(23));
    assert_eq!(known.connectable, Some(true));
    assert_eq!(known.paired, Some(true));
    assert_eq!(known.manufacturer_data.unwrap().len(), 3);
    assert_eq!(peripheral.connection_state(), ConnectionState::Disconnected);
}

#[test]
fn manufacturer_data_keeps_the_last_block_of_a_company() {
    let mut peripheral = linked();
    let by_company = peripheral.manufacturer_data(Ok(blocks())).unwrap();
    assert_eq!(by_company.len(), 2);
    assert_eq!(by_company[&0x006b], vec![3, 4, 5]);
    assert_eq!(by_company[&0x004c], vec![9]);
}

#[test]
fn manufacturer_data_of_a_peripheral_that_advertised_none() {
    let mut peripheral = linked();
    assert!(peripheral.manufacturer_data(Ok(vec![])).unwrap().is_empty());
    assert_eq!(peripheral.info().manufacturer_data.unwrap().len(), 0);
}

#[test]
fn update_keeps_who_the_peripheral_is() {
    let mut peripheral = connected();
    let latest = PeripheralInfo {
        identifier: text("someone else"),
        address: text("00:00:00:00:00:00"),
        address_type: 0,
        rssi: Some(-42),
        tx_power: None,
        mtu: Some(247),
        connectable: Some(false),
        paired: None,
        manufacturer_data: Some(vec![ManufacturerData { company_id: 1, data: vec![7] }]),
    };
    peripheral.update(latest);
    assert_eq!(peripheral.identifier().unwrap(), "Polar H10");
    assert_eq!(peripheral.address().unwrap(), "C8:5E:1A:00:00:01");
    let known = peripheral.info();
    assert_eq!(known.address_type, 1);
    assert_eq!(known.rssi, Some(-42));
    assert_eq!(known.tx_power, None);
    assert_eq!(known.mtu, Some(247));
    assert_eq!(known.connectable, Some(false));
    assert_eq!(known.paired, None);
    assert_eq!(known.manufacturer_data.unwrap()[0].data, vec![7]);
    assert_eq!(is_connected(&peripheral), true);
}

#[test]
fn peripheral_follows_what_the_transport_says_of_the_connection() {
    let mut peripheral = linked();
    let mut observer = peripheral.on_connection_event();
    assert_eq!(peripheral.is_connected(Ok(false)).unwrap(), false);
    assert_eq!(peripheral.connection_state(), ConnectionState::Disconnected);
    assert_eq!(peripheral.is_connected(Ok(true)).unwrap(), true);
    assert_eq!(peripheral.connection_state(), ConnectionState::Connected);
    let mut subscriber =
        peripheral.notify(&text(SERVICE), &text(MEASUREMENT)).unwrap().subscriber;
    assert_eq!(peripheral.is_connected(Ok(true)).unwrap(), true);
    assert!(matches!(subscriber.try_next(), Received::Empty));
    assert_eq!(peripheral.is_connected(Ok(false)).unwrap(), false);
    assert_eq!(peripheral.connection_state(), ConnectionState::Disconnected);
    assert!(matches!(subscriber.try_next(), Received::Closed));
    assert_eq!(connection_events(&mut observer), vec![]);
}

#[test]
fn pending_requests_stay_pending_under_an_agreeing_answer() {
    let mut peripheral = linked();
    peripheral.connect().unwrap();
    assert_eq!(peripheral.is_connected(Ok(false)).unwrap(), false);
    assert_eq!(peripheral.connection_state(), ConnectionState::Connecting);
    peripheral.connect_finished(Ok(())).unwrap();
    peripheral.disconnect().unwrap();
    assert_eq!(peripheral.is_connected(Ok(true)).unwrap(), true);
    assert_eq!(peripheral.connection_state(), ConnectionState::Disconnecting);
}

#[test]
fn peripherals_are_made_of_handles_in_order() {
    let mut second = info();
    second.identifier = text("Wahoo");
    second.address = text("D0:00:00:00:00:02");
    let handles = vec![
        PeripheralHandle { info: info(), connected: false, link: Ok(()) },
        PeripheralHandle { info: second, connected: true, link: Ok(()) },
    ];
    let peripherals = InnerPeripheral::from_handles(handles).ok().unwrap();
    assert_eq!(peripherals.len(), 2);
    assert_eq!(peripherals[0].identifier().unwrap(), "Polar H10");
    assert_eq!(peripherals[0].connection_state(), ConnectionState::Disconnected);
    assert_eq!(peripherals[1].identifier().unwrap(), "Wahoo");
    assert_eq!(peripherals[1].connection_state(), ConnectionState::Connected);
    assert!(peripherals.iter().all(|p| p.is_linked()));
    assert!(InnerPeripheral::from_handles(vec![]).ok().unwrap().is_empty());
}

#[test]
fn first_refused_registration_makes_no_peripheral() {
    let handles = vec![
        PeripheralHandle { info: info(), connected: false, link: Ok(()) },
        PeripheralHandle {
            info: info(),
            connected: false,
            link: Err(Error::from_string(text("first refusal"))),
        },
        PeripheralHandle {
            info: info(),
            connected: false,
            link: Err(Error::from_string(text("second refusal"))),
        },
    ];
    let refused = InnerPeripheral::from_handles(handles);
    assert_eq!(refused.err().unwrap().message(), "first refusal");
}

#[test]
fn connect_is_announced_to_earlier_subscribers() {
    let mut peripheral = linked();
    let mut observer = peripheral.on_connection_event();
    assert!(matches!(peripheral.connect(), Ok(PeripheralRequest::Connect)));
    assert_eq!(peripheral.connection_state(), ConnectionState::Connecting);
    assert_eq!(is_connected(&peripheral), false);
    peripheral.on_callback_connected();
    assert!(peripheral.connect_finished(Ok(())).is_ok());
    assert_eq!(is_connected(&peripheral), true);
    assert_eq!(connection_events(&mut observer), vec![ConnectionEvent::Connected]);
}

#[test]
fn answers_of_the_transport_publish_nothing() {
    let mut peripheral = linked();
    let mut observer = peripheral.on_connection_event();
    peripheral.connect().unwrap();
    assert!(peripheral.connect_finished(Ok(())).is_ok());
    assert_eq!(is_connected(&peripheral), true);
    assert_eq!(connection_events(&mut observer), vec![]);
    peripheral.disconnect().unwrap();
    assert!(peripheral.disconnect_finished(Ok(())).is_ok());
    assert_eq!(is_connected(&peripheral), false);
    assert_eq!(connection_events(&mut observer), vec![]);
}

#[test]
fn every_connection_callback_publishes_its_event() {
    let mut peripheral = linked();
    peripheral.connect().unwrap();
    peripheral.connect_finished(Ok(())).unwrap();
    let mut late = peripheral.on_connection_event();
    peripheral.on_callback_connected();
    peripheral.on_callback_connected();
    assert_eq!(
        connection_events(&mut late),
        vec![ConnectionEvent::Connected, ConnectionEvent::Connected]
    );
    assert_eq!(is_connected(&peripheral), true);
}

#[test]
fn peripheral_that_is_connected_when_first_seen_takes_requests() {
    let mut peripheral = InnerPeripheral::new(info(), true);
    peripheral.link(Ok(())).unwrap();
    assert_eq!(peripheral.connection_state(), ConnectionState::Connected);
    assert_eq!(is_connected(&peripheral), true);
    assert!(peripheral.read(&text(SERVICE), &text(MEASUREMENT)).is_ok());
    assert_eq!(message(peripheral.connect()), "Peripheral is not disconnected");
    assert!(matches!(peripheral.disconnect(), Ok(PeripheralRequest::Disconnect)));
}

#[test]
fn connect_is_announced_once_when_the_callback_comes_first() {
    let mut peripheral = linked();
    let mut observer = peripheral.on_connection_event();
    peripheral.connect().unwrap();
    peripheral.on_callback_connected();
    assert_eq!(is_connected(&peripheral), true);
    assert!(peripheral.connect_finished(Ok(())).is_ok());
    assert_eq!(is_connected(&peripheral), true);
    assert_eq!(connection_events(&mut observer), vec![ConnectionEvent::Connected]);
}

#[test]
fn connect_is_announced_once_when_the_callback_comes_last() {
    let mut peripheral = linked();
    let mut observer = peripheral.on_connection_event();
    peripheral.connect().unwrap();
    assert!(peripheral.connect_finished(Ok(())).is_ok());
    peripheral.on_callback_connected();
    assert_eq!(is_connected(&peripheral), true);
    assert_eq!(connection_events(&mut observer), vec![ConnectionEvent::Connected]);
}

#[test]
fn failed_connect_leaves_the_peripheral_disconnected() {
    let mut peripheral = linked();
    let mut observer = peripheral.on_connection_event();
    peripheral.connect().unwrap();
    let result = peripheral.connect_finished(Err(Error::from_string(text("timeout"))));
    assert_eq!(result.unwrap_err().message(), "timeout");
    assert_eq!(peripheral.connection_state(), ConnectionState::Disconnected);
    assert_eq!(connection_events(&mut observer), vec![]);
    assert!(matches!(peripheral.connect(), Ok(PeripheralRequest::Connect)));
}

#[test]
fn connect_is_rejected_unless_disconnected() {
    let mut peripheral = connected();
    assert_eq!(message(peripheral.connect()), "Peripheral is not disconnected");
    assert_eq!(peripheral.connection_state(), ConnectionState::Connected);
    let mut pending = linked();
    pending.connect().unwrap();
    assert_eq!(message(pending.connect()), "Peripheral is not disconnected");
    assert_eq!(pending.connection_state(), ConnectionState::Connecting);
}

#[test]
fn disconnect_is_announced_once() {
    let mut peripheral = connected();
    let mut observer = peripheral.on_connection_event();
    assert!(matches!(peripheral.disconnect(), Ok(PeripheralRequest::Disconnect)));
    assert_eq!(peripheral.connection_state(), ConnectionState::Disconnecting);
    peripheral.on_callback_disconnected();
    assert!(peripheral.disconnect_finished(Ok(())).is_ok());
    assert_eq!(is_connected(&peripheral), false);
    assert_eq!(peripheral.connection_state(), ConnectionState::Disconnected);
    assert_eq!(connection_events(&mut observer), vec![ConnectionEvent::Disconnected]);
}

#[test]
fn disconnect_is_announced_once_when_the_callback_comes_last() {
    let mut peripheral = connected();
    let mut observer = peripheral.on_connection_event();
    peripheral.disconnect().unwrap();
    assert!(peripheral.disconnect_finished(Ok(())).is_ok());
    assert_eq!(is_connected(&peripheral), false);
    peripheral.on_callback_disconnected();
    assert_eq!(is_connected(&peripheral), false);
    assert_eq!(connection_events(&mut observer), vec![ConnectionEvent::Disconnected]);
}

#[test]
fn answered_disconnection_ends_the_subscriptions() {
    let mut peripheral = connected();
    let mut subscriber =
        peripheral.notify(&text(SERVICE), &text(MEASUREMENT)).unwrap().subscriber;
    peripheral.disconnect().unwrap();
    peripheral.disconnect_finished(Ok(())).unwrap();
    assert!(matches!(subscriber.try_next(), Received::Closed));
}

#[test]
fn failed_disconnect_leaves_the_peripheral_connected() {
    let mut peripheral = connected();
    let mut observer = peripheral.on_connection_event();
    peripheral.disconnect().unwrap();
    let result = peripheral.disconnect_finished(Err(Error::from_string(text("busy"))));
    assert_eq!(result.unwrap_err().message(), "busy");
    assert_eq!(is_connected(&peripheral), true);
    assert_eq!(connection_events(&mut observer), vec![]);
}

#[test]
fn disconnect_is_rejected_unless_connected() {
    let mut peripheral = linked();
    assert_eq!(message(peripheral.disconnect()), "Peripheral is not connected");
    assert_eq!(peripheral.connection_state(), ConnectionState::Disconnected);
}

#[test]
fn peripheral_that_drops_the_connection_is_announced() {
    let mut peripheral = connected();
    let mut observer = peripheral.on_connection_event();
    peripheral.on_callback_disconnected();
    assert_eq!(is_connected(&peripheral), false);
    assert_eq!(connection_events(&mut observer), vec![ConnectionEvent::Disconnected]);
    peripheral.on_callback_disconnected();
    assert_eq!(connection_events(&mut observer), vec![ConnectionEvent::Disconnected]);
    peripheral.on_callback_connected();
    assert_eq!(is_connected(&peripheral), true);
    assert_eq!(connection_events(&mut observer), vec![ConnectionEvent::Connected]);
}

#[test]
fn observer_sees_only_what_follows_its_subscription() {
    let mut peripheral = linked();
    peripheral.connect().unwrap();
    peripheral.connect_finished(Ok(())).unwrap();
    let mut late = peripheral.on_connection_event();
    peripheral.on_callback_disconnected();
    assert_eq!(connection_events(&mut late), vec![ConnectionEvent::Disconnected]);
}

#[test]
fn requests_name_what_the_transport_is_to_do() {
    let peripheral = connected();
    match peripheral.read(&text(SERVICE), &text(MEASUREMENT)).unwrap() {
        PeripheralRequest::Read { service, characteristic } => {
            assert_eq!(service, SERVICE);
            assert_eq!(characteristic, MEASUREMENT);
        }
        other => panic!("unexpected request {:?}", other),
    }
    match peripheral.write_request(&text(SERVICE), &text(CONTROL), &vec![1]).unwrap() {
        PeripheralRequest::WriteRequest { service, characteristic, data } => {
            assert_eq!(service, SERVICE);
            assert_eq!(characteristic, CONTROL);
            assert_eq!(data, vec![1]);
        }
        other => panic!("unexpected request {:?}", other),
    }
    match peripheral.write_command(&text(SERVICE), &text(CONTROL), &vec![2, 3]).unwrap() {
        PeripheralRequest::WriteCommand { service, characteristic, data } => {
            assert_eq!(service, SERVICE);
            assert_eq!(characteristic, CONTROL);
            assert_eq!(data, vec![2, 3]);
        }
        other => panic!("unexpected request {:?}", other),
    }
    match peripheral.descriptor_read(&text(SERVICE), &text(MEASUREMENT), &text(CONFIG)).unwrap() {
        PeripheralRequest::DescriptorRead { service, characteristic, descriptor } => {
            assert_eq!(service, SERVICE);
            assert_eq!(characteristic, MEASUREMENT);
            assert_eq!(descriptor, CONFIG);
        }
        other => panic!("unexpected request {:?}", other),
    }
    match peripheral
        .descriptor_write(&text(SERVICE), &text(MEASUREMENT), &text(CONFIG), &vec![1, 0])
        .unwrap()
    {
        PeripheralRequest::DescriptorWrite { service, characteristic, descriptor, data } => {
            assert_eq!(service, SERVICE);
            assert_eq!(characteristic, MEASUREMENT);
            assert_eq!(descriptor, CONFIG);
            assert_eq!(data, vec![1, 0]);
        }
        other => panic!("unexpected request {:?}", other),
    }
}

#[test]
fn attribute_operations_are_rejected_without_a_connection() {
    let mut peripheral = linked();
    let service = text(SERVICE);
    let characteristic = text(MEASUREMENT);
    let descriptor = text(CONFIG);
    let data = vec![1u8];
    let rejected = "Peripheral is not connected";
    assert_eq!(message(peripheral.read(&service, &characteristic)), rejected);
    assert_eq!(message(peripheral.write_request(&service, &characteristic, &data)), rejected);
    assert_eq!(message(peripheral.write_command(&service, &characteristic, &data)), rejected);
    assert_eq!(message(peripheral.descriptor_read(&service, &characteristic, &descriptor)), rejected);
    assert_eq!(
        message(peripheral.descriptor_write(&service, &characteristic, &descriptor, &data)),
        rejected
    );
    assert_eq!(message(peripheral.unsubscribe(&service, &characteristic)), rejected);
    assert_eq!(
        peripheral.notify(&service, &characteristic).err().unwrap().message(),
        rejected
    );
    assert_eq!(
        peripheral.indicate(&service, &characteristic).err().unwrap().message(),
        rejected
    );
    assert_eq!(peripheral.connection_state(), ConnectionState::Disconnected);
    assert!(matches!(peripheral.connect(), Ok(PeripheralRequest::Connect)));
}

#[test]
fn attribute_operations_are_rejected_while_a_request_is_pending() {
    let mut peripheral = linked();
    peripheral.connect().unwrap();
    assert_eq!(
        message(peripheral.read(&text(SERVICE), &text(MEASUREMENT))),
        "Peripheral is not connected"
    );
    peripheral.connect_finished(Ok(())).unwrap();
    peripheral.disconnect().unwrap();
    assert_eq!(
        message(peripheral.read(&text(SERVICE), &text(MEASUREMENT))),
        "Peripheral is not connected"
    );
}

#[test]
fn first_subscription_asks_the_transport_and_later_ones_do_not() {
    let mut peripheral = connected();
    let service = text(SERVICE);
    let characteristic = text(MEASUREMENT);
    let first = peripheral.notify(&service, &characteristic).unwrap();
    match first.request {
        Some(PeripheralRequest::Notify { service: s, characteristic: c }) => {
            assert_eq!(s, SERVICE);
            assert_eq!(c, MEASUREMENT);
        }
        other => panic!("unexpected request {:?}", other),
    }
    peripheral.subscribe_finished(&service, &characteristic, Ok(())).unwrap();
    let second = peripheral.notify(&service, &characteristic).unwrap();
    assert!(second.request.is_none());
    let third = peripheral.indicate(&service, &characteristic).unwrap();
    assert!(third.request.is_none());
    let other = peripheral.indicate(&service, &text(CONTROL)).unwrap();
    match other.request {
        Some(PeripheralRequest::Indicate { service: s, characteristic: c }) => {
            assert_eq!(s, SERVICE);
            assert_eq!(c, CONTROL);
        }
        other => panic!("unexpected request {:?}", other),
    }
}

#[test]
fn two_subscribers_of_a_characteristic_get_each_value_once() {
    let mut peripheral = connected();
    let service = text(SERVICE);
    let characteristic = text(MEASUREMENT);
    let mut first = peripheral.notify(&service, &characteristic).unwrap().subscriber;
    let mut second = peripheral.notify(&service, &characteristic).unwrap().subscriber;
    peripheral.on_callback_characteristic_updated(&service, &characteristic, &vec![0, 72]);
    peripheral.on_callback_characteristic_updated(&service, &characteristic, &vec![0, 75]);
    assert_eq!(values(&mut first), vec![vec![0, 72], vec![0, 75]]);
    assert_eq!(values(&mut second), vec![vec![0, 72], vec![0, 75]]);
    assert!(matches!(first.try_next(), Received::Empty));
    assert!(matches!(second.try_next(), Received::Empty));
}

#[test]
fn value_goes_to_the_subscribers_of_its_characteristic_only() {
    let mut peripheral = connected();
    let service = text(SERVICE);
    let mut measurement = peripheral.notify(&service, &text(MEASUREMENT)).unwrap().subscriber;
    let mut control = peripheral.indicate(&service, &text(CONTROL)).unwrap().subscriber;
    peripheral.on_callback_characteristic_updated(&service, &text(CONTROL), &vec![1]);
    assert_eq!(values(&mut measurement), Vec::<Vec<u8>>::new());
    assert_eq!(values(&mut control), vec![vec![1]]);
}

#[test]
fn characteristics_are_told_apart_by_both_uuids() {
    let mut peripheral = connected();
    let mut joined = peripheral.notify(&text("ab"), &text("c")).unwrap().subscriber;
    let split = peripheral.notify(&text("a"), &text("bc")).unwrap();
    assert!(split.request.is_some());
    let mut split = split.subscriber;
    peripheral.on_callback_characteristic_updated(&text("a"), &text("bc"), &vec![5]);
    assert_eq!(values(&mut joined), Vec::<Vec<u8>>::new());
    assert_eq!(values(&mut split), vec![vec![5]]);
}

#[test]
fn value_without_a_subscription_is_dropped() {
    let mut peripheral = connected();
    peripheral.on_callback_characteristic_updated(&text(SERVICE), &text(MEASUREMENT), &vec![1]);
    let mut late = peripheral.notify(&text(SERVICE), &text(MEASUREMENT)).unwrap().subscriber;
    assert_eq!(values(&mut late), Vec::<Vec<u8>>::new());
    assert!(matches!(late.try_next(), Received::Empty));
}

#[test]
fn nothing_reaches_a_subscriber_after_unsubscribe() {
    let mut peripheral = connected();
    let service = text(SERVICE);
    let characteristic = text(MEASUREMENT);
    let mut subscriber = peripheral.notify(&service, &characteristic).unwrap().subscriber;
    peripheral.on_callback_characteristic_updated(&service, &characteristic, &vec![1]);
    match peripheral.unsubscribe(&service, &characteristic).unwrap() {
        PeripheralRequest::Unsubscribe { service: s, characteristic: c } => {
            assert_eq!(s, SERVICE);
            assert_eq!(c, MEASUREMENT);
        }
        other => panic!("unexpected request {:?}", other),
    }
    peripheral.on_callback_characteristic_updated(&service, &characteristic, &vec![2]);
    assert_eq!(values(&mut subscriber), vec![vec![1]]);
    assert!(matches!(subscriber.try_next(), Received::Closed));
}

#[test]
fn unsubscribe_is_accepted_while_a_disconnection_is_pending() {
    let mut peripheral = connected();
    let service = text(SERVICE);
    let characteristic = text(MEASUREMENT);
    let mut subscriber = peripheral.notify(&service, &characteristic).unwrap().subscriber;
    peripheral.disconnect().unwrap();
    assert!(matches!(
        peripheral.unsubscribe(&service, &characteristic),
        Ok(PeripheralRequest::Unsubscribe { .. })
    ));
    peripheral.on_callback_characteristic_updated(&service, &characteristic, &vec![4]);
    assert_eq!(values(&mut subscriber), Vec::<Vec<u8>>::new());
    assert!(matches!(subscriber.try_next(), Received::Closed));
}

#[test]
fn unsubscribe_is_rejected_where_no_connection_is_up() {
    let mut peripheral = linked();
    assert_eq!(
        message(peripheral.unsubscribe(&text(SERVICE), &text(MEASUREMENT))),
        "Peripheral is not connected"
    );
    peripheral.connect().unwrap();
    assert_eq!(
        message(peripheral.unsubscribe(&text(SERVICE), &text(MEASUREMENT))),
        "Peripheral is not connected"
    );
    assert_eq!(peripheral.connection_state(), ConnectionState::Connecting);
}

#[test]
fn subscribing_again_after_unsubscribe_starts_a_new_bus() {
    let mut peripheral = connected();
    let service = text(SERVICE);
    let characteristic = text(MEASUREMENT);
    let mut old = peripheral.notify(&service, &characteristic).unwrap().subscriber;
    peripheral.unsubscribe(&service, &characteristic).unwrap();
    let again = peripheral.notify(&service, &characteristic).unwrap();
    assert!(again.request.is_some());
    let mut new = again.subscriber;
    peripheral.on_callback_characteristic_updated(&service, &characteristic, &vec![3]);
    assert_eq!(values(&mut old), Vec::<Vec<u8>>::new());
    assert!(matches!(old.try_next(), Received::Closed));
    assert_eq!(values(&mut new), vec![vec![3]]);
}

#[test]
fn refused_subscription_takes_the_bus_away() {
    let mut peripheral = connected();
    let service = text(SERVICE);
    let characteristic = text(MEASUREMENT);
    let mut subscriber = peripheral.notify(&service, &characteristic).unwrap().subscriber;
    let result = peripheral.subscribe_finished(
        &service,
        &characteristic,
        Err(Error::from_string(text("not supported"))),
    );
    assert_eq!(result.unwrap_err().message(), "not supported");
    peripheral.on_callback_characteristic_updated(&service, &characteristic, &vec![1]);
    assert!(matches!(subscriber.try_next(), Received::Closed));
    assert!(peripheral.notify(&service, &characteristic).unwrap().request.is_some());
}

#[test]
fn disconnection_ends_the_subscriptions() {
    let mut peripheral = connected();
    let service = text(SERVICE);
    let characteristic = text(MEASUREMENT);
    let mut subscriber = peripheral.notify(&service, &characteristic).unwrap().subscriber;
    peripheral.on_callback_disconnected();
    assert!(matches!(subscriber.try_next(), Received::Closed));
    peripheral.on_callback_connected();
    assert!(peripheral.notify(&service, &characteristic).unwrap().request.is_some());
}

#[test]
fn slow_value_subscriber_is_told_what_it_missed() {
    let mut peripheral = connected();
    let service = text(SERVICE);
    let characteristic = text(MEASUREMENT);
    let mut slow = peripheral.notify(&service, &characteristic).unwrap().subscriber;
    for i in 0..131u8 {
        peripheral.on_callback_characteristic_updated(&service, &characteristic, &vec![i]);
    }
    assert!(matches!(slow.try_next(), Received::Lagged(3)));
    assert_eq!(values(&mut slow).len(), 128);
}

#[test]
fn unpair_forgets_the_pairing_once_the_transport_agrees() {
    let mut peripheral = linked();
    assert!(matches!(peripheral.unpair(), Ok(PeripheralRequest::Unpair)));
    let refused = peripheral.unpair_finished(Err(Error::from_string(text("denied"))));
    assert_eq!(refused.unwrap_err().message(), "denied");
    assert_eq!(peripheral.info().paired, Some(true));
    assert!(peripheral.unpair_finished(Ok(())).is_ok());
    assert_eq!(peripheral.info().paired, Some(false));
}

fn discovered() -> Vec<InnerService> {
    vec![
        InnerService::new(
            text(SERVICE),
            vec![],
            vec![InnerCharacteristic::new(
                text(MEASUREMENT),
                vec![InnerDescriptor::new(text(CONFIG))],
                false,
                false,
                false,
                true,
                false,
            )],
        ),
        InnerService::new(text("0000180f-0000-1000-8000-00805f9b34fb"), vec![100], vec![]),
    ]
}

fn outline(services: &[simplersble::PublicService]) -> Vec<String> {
    let mut lines = Vec::new();
    for service in services {
        lines.push(format!("s {} {:?}", service.uuid(), service.data()));
        for characteristic in service.characteristics() {
            lines.push(format!("c {} {:?}", characteristic.uuid(), characteristic.capabilities()));
            for descriptor in characteristic.descriptors() {
                lines.push(format!("d {}", descriptor.uuid()));
            }
        }
    }
    lines
}

#[test]
fn services_builds_the_tree_that_was_discovered() {
    let peripheral = connected();
    let services = peripheral.services(Ok(discovered())).unwrap();
    assert_eq!(
        outline(&services),
        vec![
            format!("s {} []", SERVICE),
            format!("c {} [Notify]", MEASUREMENT),
            format!("d {}", CONFIG),
            text("s 0000180f-0000-1000-8000-00805f9b34fb [100]"),
        ]
    );
}

#[test]
fn services_twice_gives_equal_trees_that_share_nothing() {
    let peripheral = connected();
    let first = peripheral.services(Ok(discovered())).unwrap();
    let second = peripheral.services(Ok(discovered())).unwrap();
    let before = outline(&second);
    assert_eq!(outline(&first), before);
    drop(first);
    assert_eq!(outline(&second), before);
}

#[test]
fn failed_discovery_is_handed_on() {
    let peripheral = connected();
    let result = peripheral.services(Err(Error::from_string(text("gatt busy"))));
    assert_eq!(result.err().unwrap().message(), "gatt busy");
}
