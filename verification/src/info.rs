use crate::service::copy_bytes;
use crate::types::BluetoothAddressType;
use std::collections::HashMap;
use vstd::prelude::*;

verus! {

/// One manufacturer-specific block of a peripheral's advertisement.
pub struct ManufacturerData {
    /// The 16-bit identifier of the company that defined the block.
    pub company_id: u16,
    pub data: Vec<u8>,
}

impl View for ManufacturerData {
    type V = (u16, Seq<u8>);

    open spec fn view(&self) -> (u16, Seq<u8>) {
        (self.company_id, self.data@)
    }
}

impl Clone for ManufacturerData {
    fn clone(&self) -> (copy: Self)
        ensures
            copy@ == self@,
    {
        ManufacturerData { company_id: self.company_id, data: copy_bytes(&self.data) }
    }
}

/// What a list of manufacturer blocks holds.
pub open spec fn manufacturer_views(blocks: Seq<ManufacturerData>) -> Seq<(u16, Seq<u8>)> {
    blocks.map_values(|b: ManufacturerData| b@)
}

/// The manufacturer blocks by company: where a company occurs more than
/// once, its last block stands.
pub open spec fn manufacturer_map(blocks: Seq<(u16, Seq<u8>)>) -> Map<u16, Seq<u8>>
    decreases blocks.len(),
{
    if blocks.len() == 0 {
        Map::empty()
    } else {
        manufacturer_map(blocks.drop_last()).insert(blocks.last().0, blocks.last().1)
    }
}

/// The bytes behind each value of a map of byte vectors.
pub open spec fn byte_map(map: Map<u16, Vec<u8>>) -> Map<u16, Seq<u8>> {
    map.map_values(|v: Vec<u8>| v@)
}

/// A copy of `blocks` that shares nothing with it.
pub fn copy_manufacturer_data(blocks: &Vec<ManufacturerData>) -> (copy: Vec<ManufacturerData>)
    ensures
        manufacturer_views(copy@) == manufacturer_views(blocks@),
{
    let mut copy: Vec<ManufacturerData> = Vec::new();
    let mut i: usize = 0;
    while i < blocks.len()
        invariant
            i <= blocks.len(),
            copy.len() == i,
            forall|k: int| 0 <= k < i ==> copy[k]@ == blocks[k]@,
        decreases blocks.len() - i,
    {
        copy.push(blocks[i].clone());
        i += 1;
    }
    assert(manufacturer_views(copy@) =~= manufacturer_views(blocks@));
    copy
}

/// What an optional list of manufacturer blocks holds.
pub open spec fn known_blocks(blocks: Option<Vec<ManufacturerData>>) -> Option<
    Seq<(u16, Seq<u8>)>,
> {
    match blocks {
        Some(list) => Some(manufacturer_views(list@)),
        None => None,
    }
}

/// What is known of a peripheral: who it is, and what the transport last
/// reported of it. A field that is `None` is one that the transport could
/// not tell.
pub struct PeripheralInfo {
    pub identifier: String,
    pub address: String,
    /// The address type as the transport numbers it.
    pub address_type: i32,
    /// The signal strength in dBm.
    pub rssi: Option<i16>,
    /// The advertised transmit power in dBm.
    pub tx_power: Option<i16>,
    pub mtu: Option<u16>,
    pub connectable: Option<bool>,
    pub paired: Option<bool>,
    pub manufacturer_data: Option<Vec<ManufacturerData>>,
}

/// What a `PeripheralInfo` holds.
pub struct PeripheralInfoView {
    pub identifier: Seq<char>,
    pub address: Seq<char>,
    pub address_type: i32,
    pub rssi: Option<i16>,
    pub tx_power: Option<i16>,
    pub mtu: Option<u16>,
    pub connectable: Option<bool>,
    pub paired: Option<bool>,
    pub manufacturer_data: Option<Seq<(u16, Seq<u8>)>>,
}

impl PeripheralInfoView {
    /// This peripheral after a later report of it: who it is stays, every
    /// other field is the report's.
    pub open spec fn refreshed(self, latest: PeripheralInfoView) -> PeripheralInfoView {
        PeripheralInfoView {
            identifier: self.identifier,
            address: self.address,
            address_type: self.address_type,
            ..latest
        }
    }

    /// The decoded address type.
    pub open spec fn kind(self) -> BluetoothAddressType {
        BluetoothAddressType::decode(self.address_type)
    }
}

impl View for PeripheralInfo {
    type V = PeripheralInfoView;

    open spec fn view(&self) -> PeripheralInfoView {
        PeripheralInfoView {
            identifier: self.identifier@,
            address: self.address@,
            address_type: self.address_type,
            rssi: self.rssi,
            tx_power: self.tx_power,
            mtu: self.mtu,
            connectable: self.connectable,
            paired: self.paired,
            manufacturer_data: known_blocks(self.manufacturer_data),
        }
    }
}

impl Clone for PeripheralInfo {
    fn clone(&self) -> (copy: Self)
        ensures
            copy@ == self@,
    {
        PeripheralInfo {
            identifier: self.identifier.clone(),
            address: self.address.clone(),
            address_type: self.address_type,
            rssi: self.rssi,
            tx_power: self.tx_power,
            mtu: self.mtu,
            connectable: self.connectable,
            paired: self.paired,
            manufacturer_data: match &self.manufacturer_data {
                Some(blocks) => Some(copy_manufacturer_data(blocks)),
                None => None,
            },
        }
    }
}

impl PeripheralInfo {
    /// Takes over a later report of the same peripheral: who it is stays,
    /// every other field becomes the report's.
    pub fn refresh(&mut self, latest: PeripheralInfo)
        ensures
            final(self)@ == old(self)@.refreshed(latest@),
    {
        self.rssi = latest.rssi;
        self.tx_power = latest.tx_power;
        self.mtu = latest.mtu;
        self.connectable = latest.connectable;
        self.paired = latest.paired;
        self.manufacturer_data = latest.manufacturer_data;
    }
}

/// The manufacturer blocks by company: where a company occurs more than
/// once, its last block stands.
pub fn map_by_company(blocks: &Vec<ManufacturerData>) -> (by_company: HashMap<u16, Vec<u8>>)
    ensures
        byte_map(by_company@) == manufacturer_map(manufacturer_views(blocks@)),
{
    broadcast use vstd::std_specs::hash::group_hash_axioms;

    let mut by_company: HashMap<u16, Vec<u8>> = HashMap::new();
    let ghost views = manufacturer_views(blocks@);
    let mut i: usize = 0;
    assert(byte_map(by_company@) =~= manufacturer_map(views.subrange(0, 0)));
    while i < blocks.len()
        invariant
            i <= blocks.len(),
            views == manufacturer_views(blocks@),
            byte_map(by_company@) == manufacturer_map(views.subrange(0, i as int)),
        decreases blocks.len() - i,
    {
        let ghost before = by_company@;
        let data = copy_bytes(&blocks[i].data);
        by_company.insert(blocks[i].company_id, data);
        proof {
            let upto = views.subrange(0, i + 1);
            assert(upto.drop_last() =~= views.subrange(0, i as int));
            assert(upto.last() == blocks[i as int]@);
            assert(byte_map(by_company@) =~= byte_map(before).insert(
                blocks[i as int].company_id,
                data@,
            ));
        }
        i += 1;
    }
    assert(views.subrange(0, i as int) =~= views);
    by_company
}

} // verus!
