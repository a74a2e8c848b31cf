//! Hardware addresses of network interfaces: which of them belong to
//! physical interfaces, and which interface gives the address of a host.

use vstd::prelude::*;
use vstd::string::StringSliceAdditionalSpecFns;

use crate::text::{bytes_contain, bytes_equal, bytes_start_with, contains, starts_with};

verus! {

/// Interface type of an Ethernet interface.
pub const IFACE_TYPE_ETHERNET: u16 = 1;

/// Interface type of a wireless interface.
pub const IFACE_TYPE_WIFI: u16 = 801;

/// Whether the three bytes are the prefix that a vendor of virtual machines
/// gives to the addresses of its virtual interfaces.
pub open spec fn is_vm_prefix(first: u8, second: u8, third: u8) -> bool {
    ||| (first == 0x00 && second == 0x05 && third == 0x69)
    ||| (first == 0x00 && second == 0x0C && third == 0x29)
    ||| (first == 0x00 && second == 0x1C && third == 0x14)
    ||| (first == 0x00 && second == 0x50 && third == 0x56)
    ||| (first == 0x00 && second == 0x03 && third == 0xFF)
    ||| (first == 0x00 && second == 0x15 && third == 0x5D)
    ||| (first == 0x08 && second == 0x00 && third == 0x27)
    ||| (first == 0x0A && second == 0x00 && third == 0x27)
    ||| (first == 0x00 && second == 0x1C && third == 0x42)
}

/// Known address prefixes of common virtual machine vendors.
#[must_use]
pub fn vm_mac_prefixes() -> (prefixes: Vec<[u8; 3]>)
    ensures
        prefixes@.len() == 9,
        forall|i: int|
            0 <= i < prefixes@.len() ==> is_vm_prefix(
                (#[trigger] prefixes@[i])[0],
                prefixes@[i][1],
                prefixes@[i][2],
            ),
        forall|first: u8, second: u8, third: u8|
            is_vm_prefix(first, second, third) ==> exists|i: int|
                0 <= i < prefixes@.len() && (#[trigger] prefixes@[i])@ == seq![first, second, third],
{
    let prefixes = vec![
        [0x00u8, 0x05u8, 0x69u8],
        [0x00u8, 0x0Cu8, 0x29u8],
        [0x00u8, 0x1Cu8, 0x14u8],
        [0x00u8, 0x50u8, 0x56u8],
        [0x00u8, 0x03u8, 0xFFu8],
        [0x00u8, 0x15u8, 0x5Du8],
        [0x08u8, 0x00u8, 0x27u8],
        [0x0Au8, 0x00u8, 0x27u8],
        [0x00u8, 0x1Cu8, 0x42u8],
    ];
    proof {
        assert forall|first: u8, second: u8, third: u8|
            is_vm_prefix(first, second, third) implies exists|i: int|
            0 <= i < prefixes@.len() && (#[trigger] prefixes@[i])@ == seq![first, second, third] by {
            let wanted = seq![first, second, third];
            let i: int = if first == 0x08 {
                6
            } else if first == 0x0A {
                7
            } else if second == 0x05 {
                0
            } else if second == 0x0C {
                1
            } else if second == 0x1C && third == 0x14 {
                2
            } else if second == 0x50 {
                3
            } else if second == 0x03 {
                4
            } else if second == 0x15 {
                5
            } else {
                8
            };
            assert(prefixes@[i]@ =~= wanted);
        }
    }
    prefixes
}

/// Checks whether the address is locally administered: bit 1 of its first
/// byte is set. Such an address was assigned by software, not by the
/// manufacturer of the hardware.
#[must_use]
pub fn is_locally_administered_mac(mac: [u8; 6]) -> (local: bool)
    ensures
        local == (mac[0] & 0x02 != 0),
{
    (mac[0] & 0x02) != 0
}

/// Checks whether the address begins with the prefix of a known vendor of
/// virtual machines.
#[must_use]
pub fn is_virtual_mac_vendor(mac: [u8; 6]) -> (is_virtual: bool)
    ensures
        is_virtual == is_vm_prefix(mac[0], mac[1], mac[2]),
{
    let prefixes = vm_mac_prefixes();
    let mut i: usize = 0;
    while i < prefixes.len()
        invariant
            i <= prefixes@.len(),
            forall|k: int|
                0 <= k < i ==> (#[trigger] prefixes@[k])@ != seq![mac[0], mac[1], mac[2]],
            forall|k: int|
                0 <= k < prefixes@.len() ==> is_vm_prefix(
                    (#[trigger] prefixes@[k])[0],
                    prefixes@[k][1],
                    prefixes@[k][2],
                ),
            forall|first: u8, second: u8, third: u8|
                is_vm_prefix(first, second, third) ==> exists|k: int|
                    0 <= k < prefixes@.len() && (#[trigger] prefixes@[k])@ == seq![
                        first,
                        second,
                        third,
                    ],
        decreases prefixes@.len() - i,
    {
        let prefix = &prefixes[i];
        if prefix[0] == mac[0] && prefix[1] == mac[1] && prefix[2] == mac[2] {
            return true;
        }
        assert(prefixes@[i as int]@ != seq![mac[0], mac[1], mac[2]]) by {
            let wanted = seq![mac[0], mac[1], mac[2]];
            if prefixes@[i as int]@ == wanted {
                assert(wanted[0] == mac[0] && wanted[1] == mac[1] && wanted[2] == mac[2]);
            }
        }
        i += 1;
    }
    false
}

/// Whether a canonical path is that of a virtual device or of an interface
/// of a hypervisor.
pub open spec fn is_virtual_path(path: Seq<u8>) -> bool {
    contains(path, "/sys/devices/virtual/".spec_bytes()) || contains(path, "VMBUS".spec_bytes())
}

/// Whether the name of an interface is that of the loopback interface or
/// begins like the names of container and virtual network interfaces.
pub open spec fn is_virtual_name(name: Seq<u8>) -> bool {
    ||| name == "lo".spec_bytes()
    ||| starts_with(name, "docker".spec_bytes())
    ||| starts_with(name, "br-".spec_bytes())
    ||| starts_with(name, "veth".spec_bytes())
    ||| starts_with(name, "tun".spec_bytes())
    ||| starts_with(name, "tap".spec_bytes())
    ||| starts_with(name, "vmnet".spec_bytes())
}

/// Whether an interface is virtual: it has no device entry, or its address
/// is locally administered or that of a vendor of virtual machines, or its
/// canonical path or its name is that of a virtual interface.
pub open spec fn is_virtual(
    has_device: bool,
    canonical_path: Option<Seq<u8>>,
    name: Option<Seq<u8>>,
    mac: [u8; 6],
) -> bool {
    ||| !has_device
    ||| mac[0] & 0x02 != 0
    ||| is_vm_prefix(mac[0], mac[1], mac[2])
    ||| (canonical_path is Some && is_virtual_path(canonical_path->Some_0))
    ||| (name is Some && is_virtual_name(name->Some_0))
}

/// Checks whether an interface is virtual, from what its directory shows:
/// whether it has a device entry, its canonical path and its name, where
/// they could be had, and its address.
#[must_use]
pub fn is_virtual_interface(
    has_device: bool,
    canonical_path: Option<&str>,
    name: Option<&str>,
    mac: [u8; 6],
) -> (is_virtual: bool)
    ensures
        is_virtual == self::is_virtual(
            has_device,
            match canonical_path {
                Some(path) => Some(path.spec_bytes()),
                None => None,
            },
            match name {
                Some(name) => Some(name.spec_bytes()),
                None => None,
            },
            mac,
        ),
{
    // If the interface does not have a "device" entry,
    // it is considered virtual.
    if !has_device {
        return true;
    }
    // A locally administered address is one assigned by software rather
    // than by the hardware manufacturer.
    if is_locally_administered_mac(mac) {
        return true;
    }
    // The address is from a known virtual machine vendor.
    if is_virtual_mac_vendor(mac) {
        return true;
    }
    // Canonical path checks for virtual devices or hypervisor interfaces.
    if let Some(path) = canonical_path {
        let path = path.as_bytes();
        if bytes_contain(path, "/sys/devices/virtual/".as_bytes()) {
            return true;
        }
        if bytes_contain(path, "VMBUS".as_bytes()) {
            return true;
        }
    }
    if let Some(name) = name {
        let name = name.as_bytes();
        // Exclude loopback interface "lo".
        if bytes_equal(name, "lo".as_bytes()) {
            return true;
        }
        // Exclude common container and virtual network interface prefixes.
        if bytes_start_with(name, "docker".as_bytes()) || bytes_start_with(name, "br-".as_bytes())
            || bytes_start_with(name, "veth".as_bytes()) || bytes_start_with(
            name,
            "tun".as_bytes(),
        ) || bytes_start_with(name, "tap".as_bytes()) || bytes_start_with(
            name,
            "vmnet".as_bytes(),
        ) {
            return true;
        }
    }
    false
}

/// What the directory of a network interface shows.
#[derive(Debug, Clone, PartialEq)]
pub struct Interface {
    /// The hardware address, where it could be read.
    pub mac: Option<[u8; 6]>,
    /// Whether the interface has a device entry.
    pub has_device: bool,
    /// The canonical path of the directory, where it could be had.
    pub canonical_path: Option<String>,
    /// The name of the interface, where it could be had.
    pub name: Option<String>,
    /// The type of the interface, where it could be read.
    pub kind: Option<u16>,
    /// Whether the interface has a wireless entry.
    pub wireless: bool,
}

/// What an interface gives to the addresses of a host.
#[derive(Debug, Clone, Copy, PartialEq, Eq, Structural)]
pub enum Role {
    /// The address of the wireless interface.
    Wifi,
    /// The address of the Ethernet interface.
    Ethernet,
    /// Nothing.
    Unused,
}

impl Interface {
    /// What the interface gives: nothing if its address or its type is
    /// missing or if it is virtual; else the wireless address if it is
    /// wireless and of the wireless type, the Ethernet address if it is not
    /// wireless and of the Ethernet type, and nothing otherwise.
    pub open spec fn role_spec(&self) -> Role {
        if self.mac is None || self.kind is None || is_virtual(
            self.has_device,
            match self.canonical_path {
                Some(path) => Some(vstd::utf8::encode_utf8(path@)),
                None => None,
            },
            match self.name {
                Some(name) => Some(vstd::utf8::encode_utf8(name@)),
                None => None,
            },
            self.mac->Some_0,
        ) {
            Role::Unused
        } else if self.wireless && self.kind->Some_0 == IFACE_TYPE_WIFI {
            Role::Wifi
        } else if !self.wireless && self.kind->Some_0 == IFACE_TYPE_ETHERNET {
            Role::Ethernet
        } else {
            Role::Unused
        }
    }

    /// Returns what the interface gives to the addresses of a host.
    #[must_use]
    pub fn role(&self) -> (role: Role)
        ensures
            role == self.role_spec(),
    {
        // Skip interface if MAC is invalid or unreadable.
        let mac = match self.mac {
            Some(mac) => mac,
            None => return Role::Unused,
        };
        let canonical_path = match &self.canonical_path {
            Some(path) => Some(path.as_str()),
            None => None,
        };
        let name = match &self.name {
            Some(name) => Some(name.as_str()),
            None => None,
        };
        // Skip interface if it is virtual.
        if is_virtual_interface(self.has_device, canonical_path, name, mac) {
            return Role::Unused;
        }
        // Skip if interface type is unknown or unparsable.
        let kind = match self.kind {
            Some(kind) => kind,
            None => return Role::Unused,
        };
        // Classify based on wireless flag and interface type.
        if self.wireless && kind == IFACE_TYPE_WIFI {
            Role::Wifi
        } else if !self.wireless && kind == IFACE_TYPE_ETHERNET {
            Role::Ethernet
        } else {
            Role::Unused
        }
    }
}

/// The address of the last of the interfaces that has the given role.
pub open spec fn last_with_role(interfaces: Seq<Interface>, role: Role) -> Option<[u8; 6]>
    decreases interfaces.len(),
{
    if interfaces.len() == 0 {
        None
    } else if interfaces.last().role_spec() == role {
        interfaces.last().mac
    } else {
        last_with_role(interfaces.drop_last(), role)
    }
}

/// Returns the wireless address and the Ethernet address of a host, given
/// what the directories of its network interfaces show. Where several
/// interfaces have the same role, the last one gives the address.
#[must_use]
pub fn get_mac_addresses(interfaces: &Vec<Interface>) -> (addresses: (
    Option<[u8; 6]>,
    Option<[u8; 6]>,
))
    ensures
        addresses.0 == last_with_role(interfaces@, Role::Wifi),
        addresses.1 == last_with_role(interfaces@, Role::Ethernet),
{
    let mut wifi_mac: Option<[u8; 6]> = None;
    let mut ethernet_mac: Option<[u8; 6]> = None;
    let mut i: usize = 0;
    while i < interfaces.len()
        invariant
            i <= interfaces@.len(),
            wifi_mac == last_with_role(interfaces@.take(i as int), Role::Wifi),
            ethernet_mac == last_with_role(interfaces@.take(i as int), Role::Ethernet),
        decreases interfaces@.len() - i,
    {
        proof {
            assert(interfaces@.take(i + 1).drop_last() =~= interfaces@.take(i as int));
        }
        match interfaces[i].role() {
            Role::Wifi => {
                wifi_mac = interfaces[i].mac;
            },
            Role::Ethernet => {
                ethernet_mac = interfaces[i].mac;
            },
            Role::Unused => {},
        }
        i += 1;
    }
    assert(interfaces@.take(interfaces@.len() as int) =~= interfaces@);
    (wifi_mac, ethernet_mac)
}

/// Operational status of an interface that is up: enabled and ready for
/// network communication.
pub const OPER_STATUS_UP: i32 = 1;

/// Interface type of an Ethernet adapter.
pub const ADAPTER_TYPE_ETHERNET: u32 = 6;

/// Interface type of a wireless adapter.
pub const ADAPTER_TYPE_WIFI: u32 = 71;

/// Physical medium of an Ethernet adapter.
pub const PHYSICAL_MEDIUM_ETHERNET: i32 = 14;

/// Physical medium of a wireless adapter.
pub const PHYSICAL_MEDIUM_WIFI: i32 = 9;

/// What the interface table says of one network adapter.
#[derive(Debug, Clone, Copy, PartialEq, Eq)]
pub struct AdapterRow {
    /// The operational status of the interface.
    pub oper_status: i32,
    /// The number of bytes of the physical address.
    pub physical_address_length: u32,
    /// The physical address, in the first bytes of the field.
    pub physical_address: [u8; 32],
    /// The type of the interface.
    pub kind: u32,
    /// The physical medium of the interface.
    pub physical_medium: i32,
}

impl AdapterRow {
    /// The address of the adapter: the first six bytes of its physical
    /// address, if the interface is up and its address has six bytes.
    pub open spec fn mac_spec(&self) -> Option<[u8; 6]> {
        if self.oper_status == OPER_STATUS_UP && self.physical_address_length == 6 {
            Some(
                [
                    self.physical_address[0],
                    self.physical_address[1],
                    self.physical_address[2],
                    self.physical_address[3],
                    self.physical_address[4],
                    self.physical_address[5],
                ],
            )
        } else {
            None
        }
    }

    /// What the adapter gives: nothing if it has no address; else the
    /// wireless address if both its type and its physical medium are
    /// wireless, the Ethernet address if both are Ethernet, and nothing
    /// otherwise.
    pub open spec fn role_spec(&self) -> Role {
        if self.mac_spec() is None {
            Role::Unused
        } else if self.kind == ADAPTER_TYPE_WIFI && self.physical_medium == PHYSICAL_MEDIUM_WIFI {
            Role::Wifi
        } else if self.kind == ADAPTER_TYPE_ETHERNET && self.physical_medium
            == PHYSICAL_MEDIUM_ETHERNET {
            Role::Ethernet
        } else {
            Role::Unused
        }
    }

    /// Returns what the adapter gives to the addresses of a host.
    #[must_use]
    pub fn role(&self) -> (role: Role)
        ensures
            role == self.role_spec(),
    {
        if extract_mac_from_row(self).is_none() {
            Role::Unused
        } else if self.kind == ADAPTER_TYPE_WIFI && self.physical_medium == PHYSICAL_MEDIUM_WIFI {
            Role::Wifi
        } else if self.kind == ADAPTER_TYPE_ETHERNET && self.physical_medium
            == PHYSICAL_MEDIUM_ETHERNET {
            Role::Ethernet
        } else {
            Role::Unused
        }
    }
}

/// Returns the address of an adapter only if the interface is active
/// ("up") and has a valid 6-byte address.
#[must_use]
pub fn extract_mac_from_row(row: &AdapterRow) -> (mac: Option<[u8; 6]>)
    ensures
        mac == row.mac_spec(),
{
    if row.oper_status == OPER_STATUS_UP && row.physical_address_length == 6 {
        let mac = [
            row.physical_address[0],
            row.physical_address[1],
            row.physical_address[2],
            row.physical_address[3],
            row.physical_address[4],
            row.physical_address[5],
        ];
        Some(mac)
    } else {
        None
    }
}

/// The address of the last of the adapters that has the given role.
pub open spec fn last_adapter_with_role(rows: Seq<AdapterRow>, role: Role) -> Option<[u8; 6]>
    decreases rows.len(),
{
    if rows.len() == 0 {
        None
    } else if rows.last().role_spec() == role {
        rows.last().mac_spec()
    } else {
        last_adapter_with_role(rows.drop_last(), role)
    }
}

/// Goes through the rows of the adapters and returns the wireless address
/// and the Ethernet address of the host. Where several adapters have the
/// same role, the last one gives the address.
#[must_use]
pub fn process_adapter(rows: &Vec<AdapterRow>) -> (addresses: (Option<[u8; 6]>, Option<[u8; 6]>))
    ensures
        addresses.0 == last_adapter_with_role(rows@, Role::Wifi),
        addresses.1 == last_adapter_with_role(rows@, Role::Ethernet),
{
    let mut wifi: Option<[u8; 6]> = None;
    let mut ethernet: Option<[u8; 6]> = None;
    let mut i: usize = 0;
    while i < rows.len()
        invariant
            i <= rows@.len(),
            wifi == last_adapter_with_role(rows@.take(i as int), Role::Wifi),
            ethernet == last_adapter_with_role(rows@.take(i as int), Role::Ethernet),
        decreases rows@.len() - i,
    {
        proof {
            assert(rows@.take(i + 1).drop_last() =~= rows@.take(i as int));
        }
        // Only the last valid wireless and Ethernet address found is kept.
        match rows[i].role() {
            Role::Wifi => {
                wifi = extract_mac_from_row(&rows[i]);
            },
            Role::Ethernet => {
                ethernet = extract_mac_from_row(&rows[i]);
            },
            Role::Unused => {},
        }
        i += 1;
    }
    assert(rows@.take(rows@.len() as int) =~= rows@);
    (wifi, ethernet)
}

} // verus!
