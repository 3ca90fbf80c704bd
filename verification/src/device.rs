//! Devices, the keys shared with them, and the registry of paired devices.

use crate::crypto::hkdf_expand_32;
use crate::crypto::hkdf_sha256_32;
use crate::keyed::all_distinct;
use crate::keyed::lemma_absent;
use crate::keyed::lemma_index_of_unique;
use crate::keyed::lemma_push_unique;
use crate::text::bytes_equal;
use crate::text::copy_opt_bytes;
use crate::text::opt_bytes;
use crate::time::Timestamp;
use vstd::prelude::*;
use vstd::string::*;

verus! {

/// How a device identifies itself on the network.
#[derive(Debug, PartialEq, Eq)]
pub struct NetworkFingerprint {
    pub node_id: String,
    pub public_key: Vec<u8>,
}

/// What a device tells its peers about itself.
#[derive(Debug, PartialEq, Eq)]
pub struct DeviceInfo {
    pub device_id: u128,
    pub device_name: String,
    pub device_slug: String,
    pub os_version: String,
    pub app_version: String,
    pub network_fingerprint: NetworkFingerprint,
    pub last_seen: Timestamp,
}

/// The mathematical value of a [`DeviceInfo`].
pub ghost struct DeviceInfoView {
    pub device_id: u128,
    pub device_name: Seq<char>,
    pub device_slug: Seq<char>,
    pub os_version: Seq<char>,
    pub app_version: Seq<char>,
    pub node_id: Seq<char>,
    pub public_key: Seq<u8>,
    pub last_seen: Timestamp,
}

impl View for DeviceInfo {
    type V = DeviceInfoView;

    open spec fn view(&self) -> DeviceInfoView {
        DeviceInfoView {
            device_id: self.device_id,
            device_name: self.device_name@,
            device_slug: self.device_slug@,
            os_version: self.os_version@,
            app_version: self.app_version@,
            node_id: self.network_fingerprint.node_id@,
            public_key: self.network_fingerprint.public_key@,
            last_seen: self.last_seen,
        }
    }
}

impl Clone for DeviceInfo {
    fn clone(&self) -> (r: Self)
        ensures
            r@ == self@,
    {
        DeviceInfo {
            device_id: self.device_id,
            device_name: self.device_name.clone(),
            device_slug: self.device_slug.clone(),
            os_version: self.os_version.clone(),
            app_version: self.app_version.clone(),
            network_fingerprint: NetworkFingerprint {
                node_id: self.network_fingerprint.node_id.clone(),
                public_key: self.network_fingerprint.public_key.clone(),
            },
            last_seen: self.last_seen,
        }
    }
}

/// The pair of symmetric keys that protects the traffic between two devices.
/// One device's send key is the other's receive key.
#[derive(Debug, PartialEq, Eq)]
pub struct SessionKeys {
    pub send_key: Vec<u8>,
    pub receive_key: Vec<u8>,
}

/// The mathematical value of a [`SessionKeys`].
pub ghost struct SessionKeysView {
    pub send_key: Seq<u8>,
    pub receive_key: Seq<u8>,
}

impl SessionKeysView {
    /// The two keys have one length and differ.
    pub open spec fn wf(self) -> bool {
        self.send_key.len() == self.receive_key.len() && self.send_key != self.receive_key
    }

    /// The same pair as the peer holds it.
    pub open spec fn swapped(self) -> SessionKeysView {
        SessionKeysView { send_key: self.receive_key, receive_key: self.send_key }
    }
}

/// The context under which a send key is derived from a shared secret.
pub open spec fn send_key_label() -> Seq<u8> {
    "spacedrive-send-key".spec_bytes()
}

/// The context under which a receive key is derived from a shared secret.
pub open spec fn receive_key_label() -> Seq<u8> {
    "spacedrive-receive-key".spec_bytes()
}

/// The keys that a shared secret yields.
pub open spec fn keys_from_secret(secret: Seq<u8>) -> SessionKeysView {
    SessionKeysView {
        send_key: hkdf_sha256_32(secret, send_key_label()),
        receive_key: hkdf_sha256_32(secret, receive_key_label()),
    }
}

impl View for SessionKeys {
    type V = SessionKeysView;

    open spec fn view(&self) -> SessionKeysView {
        SessionKeysView { send_key: self.send_key@, receive_key: self.receive_key@ }
    }
}

impl Clone for SessionKeys {
    fn clone(&self) -> (r: Self)
        ensures
            r@ == self@,
    {
        SessionKeys { send_key: self.send_key.clone(), receive_key: self.receive_key.clone() }
    }
}

impl SessionKeys {
    /// Derives the two keys from a shared secret, each with HKDF-SHA256 under
    /// its own context.
    pub fn from_shared_secret(shared_secret: Vec<u8>) -> (keys: SessionKeys)
        ensures
            keys@ == keys_from_secret(shared_secret@),
            keys.send_key@.len() == 32,
            keys.receive_key@.len() == 32,
    {
        let send_key = hkdf_expand_32(shared_secret.as_slice(), "spacedrive-send-key".as_bytes());
        let receive_key = hkdf_expand_32(
            shared_secret.as_slice(),
            "spacedrive-receive-key".as_bytes(),
        );
        SessionKeys { send_key, receive_key }
    }

    /// The same pair as the peer holds it: send and receive exchanged.
    pub fn swap_keys(self) -> (keys: SessionKeys)
        ensures
            keys@ == self@.swapped(),
    {
        SessionKeys { send_key: self.receive_key, receive_key: self.send_key }
    }

    /// Whether the two keys have one length and differ.
    pub fn is_valid(&self) -> (r: bool)
        ensures
            r == self@.wf(),
    {
        self.send_key.len() == self.receive_key.len() && !bytes_equal(
            self.send_key.as_slice(),
            self.receive_key.as_slice(),
        )
    }
}

/// How far a paired device is trusted.
#[derive(Clone, Copy, Debug, PartialEq, Eq, Structural)]
pub enum TrustLevel {
    Trusted,
    Unreliable,
    Blocked,
}

/// How a pairing came about.
#[derive(Clone, Copy, Debug, PartialEq, Eq, Structural)]
pub enum PairingType {
    /// The two devices exchanged a pairing code.
    Direct,
    /// A third device vouched for the peer.
    Proxied,
}

impl PairingType {
    /// The name under which the pairing type is stored and sent.
    pub open spec fn spec_as_str(self) -> Seq<char> {
        match self {
            PairingType::Direct => "Direct"@,
            PairingType::Proxied => "Proxied"@,
        }
    }

    /// The name under which the pairing type is stored and sent.
    pub fn as_str(&self) -> (name: &'static str)
        ensures
            name@ == self.spec_as_str(),
    {
        match self {
            PairingType::Direct => "Direct",
            PairingType::Proxied => "Proxied",
        }
    }

    /// The pairing type with the given name, if there is one.
    pub fn from_str(name: &str) -> (r: Option<PairingType>)
        ensures
            r == if name@ == "Direct"@ {
                Some(PairingType::Direct)
            } else if name@ == "Proxied"@ {
                Some(PairingType::Proxied)
            } else {
                None::<PairingType>
            },
    {
        let name = name.to_string();
        if name == "Direct".to_string() {
            Some(PairingType::Direct)
        } else if name == "Proxied".to_string() {
            Some(PairingType::Proxied)
        } else {
            None
        }
    }
}

/// A device that this device is paired with.
#[derive(Debug, PartialEq, Eq)]
pub struct PairedDevice {
    pub info: DeviceInfo,
    pub session_keys: SessionKeys,
    /// The node the device was last seen as, if it is known.
    pub node_id: Option<Vec<u8>>,
    /// Whether that node is connected right now.
    pub connected: bool,
    pub trust_level: TrustLevel,
    pub pairing_type: PairingType,
    /// The device that vouched for this one, for a proxied pairing.
    pub vouched_by: Option<u128>,
    pub paired_at: Timestamp,
}

/// The mathematical value of a [`PairedDevice`].
pub ghost struct PairedDeviceView {
    pub info: DeviceInfoView,
    pub session_keys: SessionKeysView,
    pub node_id: Option<Seq<u8>>,
    pub connected: bool,
    pub trust_level: TrustLevel,
    pub pairing_type: PairingType,
    pub vouched_by: Option<u128>,
    pub paired_at: Timestamp,
}

impl View for PairedDevice {
    type V = PairedDeviceView;

    open spec fn view(&self) -> PairedDeviceView {
        PairedDeviceView {
            info: self.info@,
            session_keys: self.session_keys@,
            node_id: opt_bytes(self.node_id),
            connected: self.connected,
            trust_level: self.trust_level,
            pairing_type: self.pairing_type,
            vouched_by: self.vouched_by,
            paired_at: self.paired_at,
        }
    }
}

impl Clone for PairedDevice {
    fn clone(&self) -> (r: Self)
        ensures
            r@ == self@,
    {
        PairedDevice {
            info: self.info.clone(),
            session_keys: self.session_keys.clone(),
            node_id: copy_opt_bytes(&self.node_id),
            connected: self.connected,
            trust_level: self.trust_level,
            pairing_type: self.pairing_type,
            vouched_by: self.vouched_by,
            paired_at: self.paired_at,
        }
    }
}

/// The identifiers of a list of paired devices, in order.
pub open spec fn device_ids(devices: Seq<PairedDeviceView>) -> Seq<u128> {
    devices.map_values(|d: PairedDeviceView| d.info.device_id)
}

/// The mathematical value of a [`DeviceRegistry`].
pub ghost struct RegistryView {
    pub local_device: DeviceInfoView,
    pub devices: Seq<PairedDeviceView>,
}

impl RegistryView {
    /// No device is listed twice.
    pub open spec fn wf(self) -> bool {
        device_ids(self.devices).no_duplicates()
    }

    /// Whether a device is paired.
    pub open spec fn is_paired(self, device_id: u128) -> bool {
        device_ids(self.devices).contains(device_id)
    }

    /// The entry of a paired device.
    pub open spec fn device(self, device_id: u128) -> PairedDeviceView {
        self.devices[device_ids(self.devices).index_of(device_id)]
    }

    /// The node of a device, if the device is paired and its node is known.
    pub open spec fn node_of(self, device_id: u128) -> Option<Seq<u8>> {
        if self.is_paired(device_id) {
            self.device(device_id).node_id
        } else {
            None
        }
    }

    /// Whether a device is paired and connected right now.
    pub open spec fn is_connected(self, device_id: u128) -> bool {
        self.is_paired(device_id) && self.device(device_id).connected
    }

    /// The registry after a pairing with `device` was stored: its entry is
    /// replaced where the device was paired already, and added otherwise.
    pub open spec fn with_device(self, device: PairedDeviceView) -> RegistryView {
        if self.is_paired(device.info.device_id) {
            RegistryView {
                devices: self.devices.update(
                    device_ids(self.devices).index_of(device.info.device_id),
                    device,
                ),
                ..self
            }
        } else {
            RegistryView { devices: self.devices.push(device), ..self }
        }
    }
}

/// Storing a pairing keeps the registry well-formed. The stored device is
/// found under its identifier as it was stored, and every other device is
/// found as before.
pub proof fn lemma_with_device(registry: RegistryView, device: PairedDeviceView)
    requires
        registry.wf(),
    ensures
        registry.with_device(device).wf(),
        registry.with_device(device).local_device == registry.local_device,
        registry.with_device(device).is_paired(device.info.device_id),
        registry.with_device(device).device(device.info.device_id) == device,
        forall|id: u128|
            id != device.info.device_id ==> (#[trigger] registry.with_device(device).is_paired(id)
                <==> registry.is_paired(id)),
        forall|id: u128|
            id != device.info.device_id && registry.is_paired(id) ==> #[trigger] registry.with_device(
                device,
            ).device(id) == registry.device(id),
{
    let after = registry.with_device(device);
    let ids = device_ids(registry.devices);
    let key = device.info.device_id;
    if registry.is_paired(key) {
        let i = ids.index_of(key);
        assert(0 <= i < ids.len() && ids[i] == key);
        assert(device_ids(after.devices) =~= ids);
        lemma_index_of_unique(device_ids(after.devices), key, i);
        assert forall|id: u128| id != key && registry.is_paired(id) implies #[trigger] after.device(
            id,
        ) == registry.device(id) by {
            let j = ids.index_of(id);
            assert(0 <= j < ids.len() && ids[j] == id);
        }
    } else {
        assert(device_ids(after.devices) =~= ids.push(key));
        lemma_push_unique(ids, key);
        lemma_index_of_unique(device_ids(after.devices), key, ids.len() as int);
        assert forall|id: u128| id != key implies (#[trigger] after.is_paired(id)
            <==> registry.is_paired(id)) by {
            if after.is_paired(id) {
                let j = choose|j: int|
                    0 <= j < device_ids(after.devices).len() && device_ids(after.devices)[j] == id;
                assert(ids[j] == id);
            }
            if registry.is_paired(id) {
                let j = choose|j: int| 0 <= j < ids.len() && ids[j] == id;
                assert(device_ids(after.devices)[j] == id);
            }
        }
        assert forall|id: u128| id != key && registry.is_paired(id) implies #[trigger] after.device(
            id,
        ) == registry.device(id) by {
            let j = ids.index_of(id);
            assert(0 <= j < ids.len() && ids[j] == id);
            lemma_index_of_unique(device_ids(after.devices), id, j);
        }
    }
}

/// The devices that this device is paired with, and what it says of itself.
#[derive(Debug)]
pub struct DeviceRegistry {
    pub local_device: DeviceInfo,
    pub devices: Vec<PairedDevice>,
}

impl View for DeviceRegistry {
    type V = RegistryView;

    open spec fn view(&self) -> RegistryView {
        RegistryView {
            local_device: self.local_device@,
            devices: self.devices@.map_values(|d: PairedDevice| d@),
        }
    }
}

impl DeviceRegistry {
    /// No device is listed twice.
    pub open spec fn wf(&self) -> bool {
        self@.wf()
    }

    /// Whether no device is listed twice.
    pub fn is_well_formed(&self) -> (r: bool)
        ensures
            r == self.wf(),
    {
        let mut ids: Vec<u128> = Vec::new();
        let mut i: usize = 0;
        while i < self.devices.len()
            invariant
                i <= self.devices.len(),
                ids@ == device_ids(self@.devices).subrange(0, i as int),
            decreases self.devices.len() - i,
        {
            ids.push(self.devices[i].info.device_id);
            assert(ids@ =~= device_ids(self@.devices).subrange(0, i as int + 1));
            i += 1;
        }
        assert(ids@ =~= device_ids(self@.devices));
        all_distinct(&ids)
    }

    /// A registry that holds no paired device yet.
    pub fn new(local_device: DeviceInfo) -> (r: DeviceRegistry)
        ensures
            r.wf(),
            r@.local_device == local_device@,
            r@.devices.len() == 0,
    {
        let r = DeviceRegistry { local_device, devices: Vec::new() };
        assert(device_ids(r@.devices) =~= Seq::<u128>::empty());
        r
    }

    /// What this device says of itself.
    pub fn get_local_device_info(&self) -> (info: DeviceInfo)
        ensures
            info@ == self@.local_device,
    {
        self.local_device.clone()
    }

    /// The place of a device in the list.
    pub fn position(&self, device_id: u128) -> (r: Option<usize>)
        requires
            self.wf(),
        ensures
            r is Some <==> self@.is_paired(device_id),
            r matches Some(i) ==> i < self.devices.len() && i == device_ids(
                self@.devices,
            ).index_of(device_id) && self.devices[i as int].info.device_id == device_id,
    {
        let mut i: usize = 0;
        while i < self.devices.len()
            invariant
                i <= self.devices.len(),
                self.wf(),
                forall|j: int| 0 <= j < i ==> device_ids(self@.devices)[j] != device_id,
            decreases self.devices.len() - i,
        {
            if self.devices[i].info.device_id == device_id {
                proof {
                    lemma_index_of_unique(device_ids(self@.devices), device_id, i as int);
                }
                return Some(i);
            }
            i += 1;
        }
        proof {
            lemma_absent(device_ids(self@.devices), device_id);
        }
        None
    }

    /// The entry of a device, if it is paired.
    pub fn get_paired_device(&self, device_id: u128) -> (r: Option<PairedDevice>)
        requires
            self.wf(),
        ensures
            r is Some <==> self@.is_paired(device_id),
            r matches Some(d) ==> d@ == self@.device(device_id),
    {
        match self.position(device_id) {
            Some(i) => Some(self.devices[i].clone()),
            None => None,
        }
    }

    /// The node of a device, if the device is paired and its node is known.
    pub fn get_node_id_for_device(&self, device_id: u128) -> (r: Option<Vec<u8>>)
        requires
            self.wf(),
        ensures
            opt_bytes(r) == self@.node_of(device_id),
    {
        match self.position(device_id) {
            Some(i) => copy_opt_bytes(&self.devices[i].node_id),
            None => None,
        }
    }

    /// The first paired device that was seen as the given node.
    pub fn get_device_by_node(&self, node_id: &[u8]) -> (r: Option<u128>)
        ensures
            match r {
                Some(id) => exists|i: int|
                    0 <= i < self@.devices.len() && self@.devices[i].node_id == Some(node_id@)
                        && self@.devices[i].info.device_id == id && forall|j: int|
                        0 <= j < i ==> self@.devices[j].node_id != Some(node_id@),
                None => forall|j: int|
                    0 <= j < self@.devices.len() ==> self@.devices[j].node_id != Some(node_id@),
            },
    {
        let mut i: usize = 0;
        while i < self.devices.len()
            invariant
                i <= self.devices.len(),
                forall|j: int| 0 <= j < i ==> self@.devices[j].node_id != Some(node_id@),
            decreases self.devices.len() - i,
        {
            let found = match &self.devices[i].node_id {
                Some(n) => bytes_equal(n.as_slice(), node_id),
                None => false,
            };
            if found {
                assert(self@.devices[i as int].node_id == Some(node_id@));
                return Some(self.devices[i].info.device_id);
            }
            i += 1;
        }
        None
    }

    /// Whether a device is paired and connected right now.
    pub fn is_node_connected(&self, device_id: u128) -> (r: bool)
        requires
            self.wf(),
        ensures
            r == self@.is_connected(device_id),
    {
        match self.position(device_id) {
            Some(i) => self.devices[i].connected,
            None => false,
        }
    }

    /// What every paired device says of itself, in the order of pairing.
    pub fn get_paired_devices(&self) -> (r: Vec<DeviceInfo>)
        ensures
            r@.map_values(|d: DeviceInfo| d@) == self@.devices.map_values(
                |d: PairedDeviceView| d.info,
            ),
    {
        let mut out: Vec<DeviceInfo> = Vec::new();
        let mut i: usize = 0;
        while i < self.devices.len()
            invariant
                i <= self.devices.len(),
                out@.len() == i,
                forall|j: int| 0 <= j < i ==> out@[j]@ == self@.devices[j].info,
            decreases self.devices.len() - i,
        {
            out.push(self.devices[i].info.clone());
            i += 1;
        }
        assert(out@.map_values(|d: DeviceInfo| d@) =~= self@.devices.map_values(
            |d: PairedDeviceView| d.info,
        ));
        out
    }

    /// Stores a completed pairing. The device becomes trusted; an earlier entry
    /// for the same device is replaced.
    pub fn complete_pairing(
        &mut self,
        info: DeviceInfo,
        session_keys: SessionKeys,
        node_id: Option<Vec<u8>>,
        pairing_type: PairingType,
        vouched_by: Option<u128>,
        now: Timestamp,
    )
        requires
            old(self).wf(),
        ensures
            final(self).wf(),
            final(self)@ == old(self)@.with_device(
                PairedDeviceView {
                    info: info@,
                    session_keys: session_keys@,
                    node_id: opt_bytes(node_id),
                    connected: false,
                    trust_level: TrustLevel::Trusted,
                    pairing_type,
                    vouched_by,
                    paired_at: now,
                },
            ),
            final(self)@.is_paired(info.device_id),
    {
        let device_id = info.device_id;
        let device = PairedDevice {
            info,
            session_keys,
            node_id,
            connected: false,
            trust_level: TrustLevel::Trusted,
            pairing_type,
            vouched_by,
            paired_at: now,
        };
        let ghost before = self@;
        match self.position(device_id) {
            Some(i) => {
                self.devices.set(i, device);
                assert(self@.devices =~= before.devices.update(i as int, device@));
                assert(device_ids(self@.devices) =~= device_ids(before.devices));
            },
            None => {
                self.devices.push(device);
                assert(self@.devices =~= before.devices.push(device@));
                assert(device_ids(self@.devices) =~= device_ids(before.devices).push(device_id));
                proof {
                    lemma_push_unique(device_ids(before.devices), device_id);
                }
                assert(device_ids(self@.devices)[before.devices.len() as int] == device_id);
            },
        }
    }

    /// Records how a paired device is reachable: the node it was seen as and
    /// whether it is connected. Returns whether the device is paired; nothing
    /// changes for one that is not.
    pub fn set_connection(&mut self, device_id: u128, node_id: Option<Vec<u8>>, connected: bool) -> (r:
        bool)
        requires
            old(self).wf(),
        ensures
            final(self).wf(),
            r == old(self)@.is_paired(device_id),
            !r ==> final(self)@ == old(self)@,
            r ==> final(self)@ == old(self)@.with_device(
                PairedDeviceView {
                    node_id: opt_bytes(node_id),
                    connected,
                    ..old(self)@.device(device_id)
                },
            ),
    {
        let ghost before = self@;
        match self.position(device_id) {
            Some(i) => {
                let mut device = self.devices[i].clone();
                device.node_id = node_id;
                device.connected = connected;
                self.devices.set(i, device);
                assert(self@.devices =~= before.devices.update(i as int, device@));
                assert(device_ids(self@.devices) =~= device_ids(before.devices));
                true
            },
            None => false,
        }
    }
}

} // verus!
