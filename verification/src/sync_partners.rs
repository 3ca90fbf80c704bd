//! Which devices of a library this device synchronises with.

use crate::crypto::hex_chars;
use crate::crypto::hex_encode;
use crate::device::DeviceRegistry;
use crate::device::RegistryView;
use vstd::prelude::*;
use vstd::string::*;

verus! {

/// A device as a library records it.
#[derive(Debug, PartialEq, Eq)]
pub struct LibraryDevice {
    pub uuid: u128,
    pub name: String,
    pub sync_enabled: bool,
}

/// The request for the sync partners of the current library.
#[derive(Clone, Copy, Debug, PartialEq, Eq, Structural)]
pub struct GetSyncPartnersInput {}

/// A device that this device synchronises with.
#[derive(Debug, PartialEq, Eq)]
pub struct SyncPartnerInfo {
    pub device_uuid: u128,
    pub device_name: String,
    pub is_paired: bool,
}

/// What is known of one device of the library, for diagnosis.
#[derive(Debug, PartialEq, Eq)]
pub struct DeviceDebugInfo {
    pub uuid: u128,
    pub name: String,
    pub sync_enabled: bool,
    pub has_node_id: bool,
    pub node_id: Option<String>,
}

/// How the sync partners came about, for diagnosis.
#[derive(Debug, PartialEq, Eq)]
pub struct SyncPartnersDebugInfo {
    pub total_devices: usize,
    pub sync_enabled_devices: usize,
    pub paired_devices: usize,
    pub final_sync_partners: usize,
    pub device_details: Vec<DeviceDebugInfo>,
}

/// The answer to a [`GetSyncPartnersInput`].
#[derive(Debug, PartialEq, Eq)]
pub struct GetSyncPartnersOutput {
    pub partners: Vec<SyncPartnerInfo>,
    pub debug_info: SyncPartnersDebugInfo,
}

/// The query for the sync partners of the current library.
#[derive(Clone, Copy, Debug, PartialEq, Eq, Structural)]
pub struct GetSyncPartners {
    pub input: GetSyncPartnersInput,
}

/// The place of the first device with the given identifier, if there is one.
pub open spec fn first_device(devices: Seq<LibraryDevice>, uuid: u128) -> Option<int> {
    if exists|i: int| 0 <= i < devices.len() && devices[i].uuid == uuid {
        Some(
            choose|i: int|
                0 <= i < devices.len() && devices[i].uuid == uuid && forall|j: int|
                    0 <= j < i ==> devices[j].uuid != uuid,
        )
    } else {
        None
    }
}

/// The identifiers and names of the library's records for the first `n`
/// partners, in order. A partner without a record is passed over.
pub open spec fn partners_upto(devices: Seq<LibraryDevice>, partners: Seq<u128>, n: nat) -> Seq<
    (u128, Seq<char>),
>
    decreases n,
{
    if n == 0 {
        Seq::empty()
    } else {
        match first_device(devices, partners[n - 1]) {
            Some(i) => partners_upto(devices, partners, (n - 1) as nat).push(
                (devices[i].uuid, devices[i].name@),
            ),
            None => partners_upto(devices, partners, (n - 1) as nat),
        }
    }
}

/// How many of the first `n` devices have synchronisation switched on.
pub open spec fn sync_enabled_upto(devices: Seq<LibraryDevice>, n: nat) -> nat
    decreases n,
{
    if n == 0 {
        0
    } else if devices[n - 1].sync_enabled {
        sync_enabled_upto(devices, (n - 1) as nat) + 1
    } else {
        sync_enabled_upto(devices, (n - 1) as nat)
    }
}

/// How many of the first `n` devices the registry knows a node for.
pub open spec fn with_node_upto(devices: Seq<LibraryDevice>, registry: RegistryView, n: nat) -> nat
    decreases n,
{
    if n == 0 {
        0
    } else if registry.node_of(devices[n - 1].uuid) is Some {
        with_node_upto(devices, registry, (n - 1) as nat) + 1
    } else {
        with_node_upto(devices, registry, (n - 1) as nat)
    }
}

impl GetSyncPartners {
    /// The query for a request.
    pub fn from_input(input: GetSyncPartnersInput) -> (r: Result<GetSyncPartners, String>)
        ensures
            r == Ok::<GetSyncPartners, String>(GetSyncPartners { input }),
    {
        Ok(GetSyncPartners { input })
    }

    /// Answers the query from the devices that the library records, the
    /// partners that the network reports, and the registry, where there is one.
    pub fn execute(
        self,
        all_devices: &Vec<LibraryDevice>,
        partner_uuids: &Vec<u128>,
        registry: Option<&DeviceRegistry>,
    ) -> (output: GetSyncPartnersOutput)
        requires
            registry matches Some(r) ==> r.wf(),
        ensures
            output.partners@.map_values(|p: SyncPartnerInfo| (p.device_uuid, p.device_name@))
                == partners_upto(all_devices@, partner_uuids@, partner_uuids@.len()),
            forall|i: int| 0 <= i < output.partners.len() ==> (#[trigger] output.partners[i]).is_paired,
            output.debug_info.total_devices == all_devices.len(),
            output.debug_info.sync_enabled_devices == sync_enabled_upto(
                all_devices@,
                all_devices@.len(),
            ),
            output.debug_info.final_sync_partners == partner_uuids.len(),
            match registry {
                Some(r) => {
                    &&& output.debug_info.paired_devices == with_node_upto(
                        all_devices@,
                        r@,
                        all_devices@.len(),
                    )
                    &&& output.debug_info.device_details.len() == all_devices.len()
                    &&& forall|i: int|
                        0 <= i < all_devices.len() ==> {
                            let d = #[trigger] output.debug_info.device_details[i];
                            &&& d.uuid == all_devices[i].uuid
                            &&& d.name@ == all_devices[i].name@
                            &&& d.sync_enabled == all_devices[i].sync_enabled
                            &&& d.has_node_id == (r@.node_of(all_devices[i].uuid) is Some)
                            &&& match r@.node_of(all_devices[i].uuid) {
                                Some(node) => d.node_id matches Some(text) && text@ == hex_chars(
                                    node,
                                ),
                                None => d.node_id is None,
                            }
                        }
                },
                None => output.debug_info.paired_devices == 0
                    && output.debug_info.device_details.len() == 0,
            },
    {
        let mut partners: Vec<SyncPartnerInfo> = Vec::new();
        let mut p: usize = 0;
        while p < partner_uuids.len()
            invariant
                p <= partner_uuids.len(),
                partners@.map_values(|p: SyncPartnerInfo| (p.device_uuid, p.device_name@))
                    == partners_upto(all_devices@, partner_uuids@, p as nat),
                forall|i: int| 0 <= i < partners.len() ==> (#[trigger] partners[i]).is_paired,
            decreases partner_uuids.len() - p,
        {
            let ghost before = partners@.map_values(
                |p: SyncPartnerInfo| (p.device_uuid, p.device_name@),
            );
            let mut found: Option<usize> = None;
            let mut i: usize = 0;
            while i < all_devices.len() && found.is_none()
                invariant
                    i <= all_devices.len(),
                    p < partner_uuids.len(),
                    found is None ==> forall|j: int| 0 <= j < i ==> all_devices@[j].uuid != partner_uuids@[p as int],
                    found matches Some(k) ==> k < all_devices.len() && all_devices@[k as int].uuid
                        == partner_uuids@[p as int] && forall|j: int|
                        0 <= j < k ==> all_devices@[j].uuid != partner_uuids@[p as int],
                decreases all_devices.len() - i + (if found is None { 1int } else { 0int }),
            {
                if all_devices[i].uuid == partner_uuids[p] {
                    found = Some(i);
                } else {
                    i += 1;
                }
            }
            match found {
                Some(k) => {
                    assert(first_device(all_devices@, partner_uuids@[p as int]) == Some(k as int)) by {
                        let c = first_device(all_devices@, partner_uuids@[p as int])->0;
                        assert(0 <= c < all_devices@.len() && all_devices@[c].uuid
                            == partner_uuids@[p as int] && forall|j: int|
                            0 <= j < c ==> all_devices@[j].uuid != partner_uuids@[p as int]);
                    }
                    partners.push(
                        SyncPartnerInfo {
                            device_uuid: all_devices[k].uuid,
                            device_name: all_devices[k].name.clone(),
                            is_paired: true,
                        },
                    );
                    assert(partners@.map_values(
                        |p: SyncPartnerInfo| (p.device_uuid, p.device_name@),
                    ) =~= before.push((all_devices@[k as int].uuid, all_devices@[k as int].name@)));
                },
                None => {},
            }
            p += 1;
        }
        let mut sync_enabled_devices: usize = 0;
        let mut paired_devices: usize = 0;
        let mut device_details: Vec<DeviceDebugInfo> = Vec::new();
        let mut i: usize = 0;
        while i < all_devices.len()
            invariant
                i <= all_devices.len(),
                registry matches Some(r) ==> r.wf(),
                sync_enabled_devices <= i,
                paired_devices <= i,
                sync_enabled_devices == sync_enabled_upto(all_devices@, i as nat),
                match registry {
                    Some(r) => {
                        &&& paired_devices == with_node_upto(all_devices@, r@, i as nat)
                        &&& device_details.len() == i
                        &&& forall|j: int|
                            0 <= j < i ==> {
                                let d = #[trigger] device_details[j];
                                &&& d.uuid == all_devices[j].uuid
                                &&& d.name@ == all_devices[j].name@
                                &&& d.sync_enabled == all_devices[j].sync_enabled
                                &&& d.has_node_id == (r@.node_of(all_devices[j].uuid) is Some)
                                &&& match r@.node_of(all_devices[j].uuid) {
                                    Some(node) => d.node_id matches Some(text) && text@
                                        == hex_chars(node),
                                    None => d.node_id is None,
                                }
                            }
                    },
                    None => paired_devices == 0 && device_details.len() == 0,
                },
            decreases all_devices.len() - i,
        {
            if all_devices[i].sync_enabled {
                sync_enabled_devices += 1;
            }
            match registry {
                Some(r) => {
                    let node = r.get_node_id_for_device(all_devices[i].uuid);
                    let has_node_id = node.is_some();
                    if has_node_id {
                        paired_devices += 1;
                    }
                    device_details.push(
                        DeviceDebugInfo {
                            uuid: all_devices[i].uuid,
                            name: all_devices[i].name.clone(),
                            sync_enabled: all_devices[i].sync_enabled,
                            has_node_id,
                            node_id: match node {
                                Some(n) => Some(hex_encode(n.as_slice())),
                                None => None,
                            },
                        },
                    );
                },
                None => {},
            }
            i += 1;
        }
        GetSyncPartnersOutput {
            partners,
            debug_info: SyncPartnersDebugInfo {
                total_devices: all_devices.len(),
                sync_enabled_devices,
                paired_devices,
                final_sync_partners: partner_uuids.len(),
                device_details,
            },
        }
    }
}

} // verus!
