//! Opening a device: the ping, feature discovery and name reading, as
//! steps driven by the device's responses.
use vstd::prelude::*;
use vstd::utf8::{decode_utf8, valid_utf8};

use crate::device::session::{DeviceError, DeviceSession};
use crate::device::table::{ids_ascending, lookup, FeatureEntry, FeatureTable};
use crate::error::HidppError;
use crate::feature_id::{DEVICE_NAME_TYPE, FEATURE_SET, ROOT};
use crate::features::device_name::{self, DeviceType};
use crate::features::{feature_set, root};
use crate::text::utf8_string;
use crate::report::{be_u16, device_error_of, is_error_report, param, request_bytes, LongReport};
use crate::types::{DeviceIndex, FeatureFlags, FeatureId, FeatureIndex, SoftwareId};

verus! {

broadcast use crate::report::lemma_report_len;

/// Where the open sequence stands.
#[derive(Debug, Clone, Copy, PartialEq, Eq, Structural)]
pub enum OpenStage {
    /// Ping the device for its protocol version.
    Ping,
    /// Ask Root for the runtime index of FeatureSet.
    FindFeatureSet,
    /// Ask FeatureSet for the number of features.
    CountFeatures,
    /// Ask FeatureSet for the feature at this table index.
    ReadFeature(u8),
    /// Discovery is over.
    Done,
}

/// Whether `new` is `old` with entry `e` recorded (replacing any entry
/// with the same feature ID).
pub open spec fn recorded(old: Seq<FeatureEntry>, new: Seq<FeatureEntry>, e: FeatureEntry) -> bool {
    &&& ids_ascending(new)
    &&& forall|id: u16|
        #[trigger] lookup(new, id) == (if id == e.id.0 {
            Some(e)
        } else {
            lookup(old, id)
        })
}

/// The Root entry recorded once the feature count is known.
pub open spec fn root_entry() -> FeatureEntry {
    FeatureEntry {
        id: FeatureId(ROOT),
        index: FeatureIndex(0),
        flags: FeatureFlags::spec_from_bits_truncate(0),
        version: 0,
    }
}

/// The entry a GetFeatureID response describes for table index `i`.
pub open spec fn announced_entry(resp: Seq<u8>, i: u8) -> FeatureEntry {
    FeatureEntry {
        id: FeatureId(be_u16(param(resp, 0), param(resp, 1))),
        index: FeatureIndex(i),
        flags: FeatureFlags::spec_from_bits_truncate(param(resp, 2)),
        version: param(resp, 3),
    }
}

/// The discovery state of a device being opened.
#[derive(Debug)]
pub struct DeviceOpener {
    pub device_index: DeviceIndex,
    pub sw_id: SoftwareId,
    pub stage: OpenStage,
    pub protocol_version: (u8, u8),
    pub feature_set: FeatureIndex,
    pub count: u8,
    pub features: FeatureTable,
}

impl DeviceOpener {
    /// Whether the stage is consistent with the feature count.
    pub open spec fn well_formed(&self) -> bool {
        self.stage matches OpenStage::ReadFeature(i) ==> 1 <= i <= self.count
    }

    /// The request the current stage sends (`None` once done).
    pub open spec fn stage_request(&self) -> Option<Seq<u8>> {
        match self.stage {
            OpenStage::Ping => Some(
                request_bytes(self.device_index.0, 0, 1, self.sw_id.0, root::ping_params()),
            ),
            OpenStage::FindFeatureSet => Some(
                request_bytes(
                    self.device_index.0,
                    0,
                    0,
                    self.sw_id.0,
                    seq![(FEATURE_SET / 256) as u8, (FEATURE_SET % 256) as u8],
                ),
            ),
            OpenStage::CountFeatures => Some(
                request_bytes(self.device_index.0, self.feature_set.0, 0, self.sw_id.0, Seq::empty()),
            ),
            OpenStage::ReadFeature(i) => Some(
                request_bytes(self.device_index.0, self.feature_set.0, 1, self.sw_id.0, seq![i]),
            ),
            OpenStage::Done => None,
        }
    }

    /// Start opening the device at `device_index`, with the default
    /// software ID.
    pub fn new(device_index: DeviceIndex) -> (o: Self)
        ensures
            o.device_index == device_index,
            o.sw_id == SoftwareId(1),
            o.stage == OpenStage::Ping,
            o.protocol_version == (0u8, 0u8),
            o.feature_set == FeatureIndex(0),
            o.count == 0,
            o.features@ == Seq::<FeatureEntry>::empty(),
            o.well_formed(),
    {
        DeviceOpener {
            device_index,
            sw_id: SoftwareId::default_id(),
            stage: OpenStage::Ping,
            protocol_version: (0, 0),
            feature_set: FeatureIndex(0),
            count: 0,
            features: FeatureTable::new(),
        }
    }

    /// Whether discovery is over.
    pub fn is_done(&self) -> (b: bool)
        ensures
            b == (self.stage == OpenStage::Done),
    {
        match self.stage {
            OpenStage::Done => true,
            _ => false,
        }
    }

    /// The request to send next (`None` once discovery is over).
    pub fn request(&self) -> (r: Option<LongReport>)
        ensures
            match (r, self.stage_request()) {
                (Some(req), Some(bytes)) => req@ == bytes,
                (None, None) => true,
                _ => false,
            },
    {
        match self.stage {
            OpenStage::Ping => Some(root::encode_ping(self.device_index, self.sw_id)),
            OpenStage::FindFeatureSet => Some(
                root::encode_get_feature(self.device_index, FeatureId(FEATURE_SET), self.sw_id),
            ),
            OpenStage::CountFeatures => Some(
                feature_set::encode_get_count(self.device_index, self.feature_set, self.sw_id),
            ),
            OpenStage::ReadFeature(i) => Some(
                feature_set::encode_get_feature_id(self.device_index, self.feature_set, i, self.sw_id),
            ),
            OpenStage::Done => None,
        }
    }

    /// Take the response to the current stage's request and move on:
    /// - Ping: a response gives the protocol version; an error response
    ///   fails with `PingFailed`.
    /// - FindFeatureSet: index 0 means no FeatureSet, and discovery ends
    ///   with no features; otherwise count them.
    /// - CountFeatures: Root is recorded at index 0, then the features at
    ///   table indices 1 to the count are read.
    /// - ReadFeature: the announced feature is recorded at its index.
    /// An error response fails with the decode error and changes nothing.
    pub fn on_response(&mut self, resp: &LongReport) -> (r: Result<(), DeviceError>)
        requires
            old(self).well_formed(),
            old(self).stage != OpenStage::Done,
        ensures
            final(self).well_formed(),
            final(self).device_index == old(self).device_index,
            final(self).sw_id == old(self).sw_id,
            is_error_report(resp@) ==> {
                &&& r == Err::<(), DeviceError>(
                    if old(self).stage == OpenStage::Ping {
                        DeviceError::PingFailed
                    } else {
                        DeviceError::Decode(device_error_of(resp@))
                    },
                )
                &&& final(self).stage == old(self).stage
                &&& final(self).protocol_version == old(self).protocol_version
                &&& final(self).feature_set == old(self).feature_set
                &&& final(self).count == old(self).count
                &&& final(self).features@ == old(self).features@
            },
            !is_error_report(resp@) ==> {
                &&& r is Ok
                &&& match old(self).stage {
                    OpenStage::Ping => {
                        &&& final(self).protocol_version == (param(resp@, 0), param(resp@, 1))
                        &&& final(self).stage == OpenStage::FindFeatureSet
                        &&& final(self).feature_set == old(self).feature_set
                        &&& final(self).count == old(self).count
                        &&& final(self).features@ == old(self).features@
                    },
                    OpenStage::FindFeatureSet => {
                        &&& final(self).protocol_version == old(self).protocol_version
                        &&& final(self).count == old(self).count
                        &&& final(self).features@ == old(self).features@
                        &&& if param(resp@, 0) == 0 {
                            final(self).stage == OpenStage::Done && final(self).feature_set
                                == old(self).feature_set
                        } else {
                            final(self).stage == OpenStage::CountFeatures && final(self).feature_set
                                == FeatureIndex(param(resp@, 0))
                        }
                    },
                    OpenStage::CountFeatures => {
                        &&& final(self).protocol_version == old(self).protocol_version
                        &&& final(self).feature_set == old(self).feature_set
                        &&& final(self).count == param(resp@, 0)
                        &&& recorded(old(self).features@, final(self).features@, root_entry())
                        &&& final(self).stage == (if param(resp@, 0) == 0 {
                            OpenStage::Done
                        } else {
                            OpenStage::ReadFeature(1)
                        })
                    },
                    OpenStage::ReadFeature(i) => {
                        &&& final(self).protocol_version == old(self).protocol_version
                        &&& final(self).feature_set == old(self).feature_set
                        &&& final(self).count == old(self).count
                        &&& recorded(
                            old(self).features@,
                            final(self).features@,
                            announced_entry(resp@, i),
                        )
                        &&& final(self).stage == (if i == old(self).count {
                            OpenStage::Done
                        } else {
                            OpenStage::ReadFeature((i + 1) as u8)
                        })
                    },
                    OpenStage::Done => false,
                }
            },
    {
        match self.stage {
            OpenStage::Ping => {
                match root::decode_ping(resp) {
                    Ok(v) => {
                        self.protocol_version = v;
                        self.stage = OpenStage::FindFeatureSet;
                        Ok(())
                    },
                    Err(_) => Err(DeviceError::PingFailed),
                }
            },
            OpenStage::FindFeatureSet => {
                match root::decode_get_feature(resp) {
                    Ok((idx, _)) => {
                        if idx.0 == 0 {
                            self.stage = OpenStage::Done;
                        } else {
                            self.feature_set = idx;
                            self.stage = OpenStage::CountFeatures;
                        }
                        Ok(())
                    },
                    Err(e) => Err(DeviceError::Decode(e)),
                }
            },
            OpenStage::CountFeatures => {
                match feature_set::decode_get_count(resp) {
                    Ok(count) => {
                        self.count = count;
                        self.features.insert(
                            FeatureEntry {
                                id: FeatureId(ROOT),
                                index: FeatureIndex::root(),
                                flags: FeatureFlags::from_bits_truncate(0),
                                version: 0,
                            },
                        );
                        self.stage = if count == 0 {
                            OpenStage::Done
                        } else {
                            OpenStage::ReadFeature(1)
                        };
                        Ok(())
                    },
                    Err(e) => Err(DeviceError::Decode(e)),
                }
            },
            OpenStage::ReadFeature(i) => {
                match feature_set::decode_get_feature_id(resp) {
                    Ok(info) => {
                        self.features.insert(
                            FeatureEntry {
                                id: info.feature_id,
                                index: FeatureIndex(i),
                                flags: info.flags,
                                version: info.version,
                            },
                        );
                        self.stage = if i == self.count {
                            OpenStage::Done
                        } else {
                            OpenStage::ReadFeature(i + 1)
                        };
                        Ok(())
                    },
                    Err(e) => Err(DeviceError::Decode(e)),
                }
            },
            OpenStage::Done => Ok(()),
        }
    }

    /// The runtime index of the device name feature, if the device has it.
    pub fn name_feature(&self) -> (r: Option<FeatureIndex>)
        ensures
            r == (match lookup(self.features@, DEVICE_NAME_TYPE) {
                Some(e) => Some(e.index),
                None => None,
            }),
    {
        match self.features.get(FeatureId(DEVICE_NAME_TYPE)) {
            Some(e) => Some(e.index),
            None => None,
        }
    }

    /// The session of a device whose name could not be read (it has no
    /// name feature, or asking for the name length failed): it is named
    /// "Unknown Device" and has no type.
    pub fn finish_unnamed(self) -> (s: DeviceSession)
        ensures
            s.device_index == self.device_index,
            s.sw_id == self.sw_id,
            s.protocol_version == self.protocol_version,
            s.name@ == "Unknown Device"@,
            s.device_type is None,
            s.features@ == self.features@,
    {
        let name = "Unknown Device".to_string();
        self.finish(name, None)
    }

    /// The session of a device whose name bytes were read: the name is
    /// their UTF-8 decoding, or "Unknown Device" when they are not valid
    /// UTF-8; the type is what was read of it.
    pub fn finish_named(self, name_bytes: &[u8], device_type: Option<DeviceType>) -> (s: DeviceSession)
        ensures
            s.device_index == self.device_index,
            s.sw_id == self.sw_id,
            s.protocol_version == self.protocol_version,
            s.name@ == (if valid_utf8(name_bytes@) {
                decode_utf8(name_bytes@)
            } else {
                "Unknown Device"@
            }),
            s.device_type == device_type,
            s.features@ == self.features@,
    {
        let name = name_text(name_bytes, "Unknown Device");
        self.finish(name, device_type)
    }

    /// The session of the opened device, with the name and type read.
    pub fn finish(self, name: String, device_type: Option<DeviceType>) -> (s: DeviceSession)
        ensures
            s.device_index == self.device_index,
            s.sw_id == self.sw_id,
            s.protocol_version == self.protocol_version,
            s.name == name,
            s.device_type == device_type,
            s.features@ == self.features@,
    {
        DeviceSession {
            device_index: self.device_index,
            sw_id: self.sw_id,
            protocol_version: self.protocol_version,
            name,
            device_type,
            features: self.features,
        }
    }
}

/// A name read in chunks: the bytes gathered so far, up to the announced
/// length.
#[derive(Debug)]
pub struct NameAssembly {
    target: u8,
    bytes: Vec<u8>,
}

impl View for NameAssembly {
    type V = (u8, Seq<u8>);

    closed spec fn view(&self) -> (u8, Seq<u8>) {
        (self.target, self.bytes@)
    }
}

impl NameAssembly {
    #[verifier::type_invariant]
    spec fn inv(&self) -> bool {
        self.bytes@.len() <= self.target
    }

    /// Start gathering a name of `target` bytes.
    pub fn new(target: u8) -> (a: Self)
        ensures
            a@ == (target, Seq::<u8>::empty()),
    {
        NameAssembly { target, bytes: Vec::new() }
    }

    /// Whether all announced bytes are gathered.
    pub fn is_complete(&self) -> (b: bool)
        ensures
            b == (self@.1.len() == self@.0),
    {
        proof {
            use_type_invariant(self);
        }
        self.bytes.len() >= self.target as usize
    }

    /// The offset the next chunk is requested from: the number of bytes
    /// gathered.
    pub fn offset(&self) -> (o: u8)
        ensures
            o == self@.1.len(),
    {
        proof {
            use_type_invariant(self);
        }
        self.bytes.len() as u8
    }

    /// Add a chunk: as many of its bytes as are still missing.
    pub fn add_chunk(&mut self, chunk: &[u8])
        ensures
            final(self)@.0 == old(self)@.0,
            final(self)@.1 == old(self)@.1 + chunk@.take(
                if old(self)@.0 - old(self)@.1.len() < chunk@.len() {
                    old(self)@.0 - old(self)@.1.len()
                } else {
                    chunk@.len() as int
                },
            ),
    {
        proof {
            use_type_invariant(&*self);
        }
        let remaining = self.target as usize - self.bytes.len();
        let take = if remaining < chunk.len() {
            remaining
        } else {
            chunk.len()
        };
        let ghost before = self.bytes@;
        let mut bytes = Vec::new();
        std::mem::swap(&mut bytes, &mut self.bytes);
        let mut i: usize = 0;
        while i < take
            invariant
                take <= chunk@.len(),
                before.len() + take <= self.target,
                i <= take,
                bytes@ == before + chunk@.take(i as int),
            decreases take - i,
        {
            bytes.push(chunk[i]);
            assert(before + chunk@.take(i + 1) =~= (before + chunk@.take(i as int)).push(chunk@[i as int]));
            i = i + 1;
        }
        self.bytes = bytes;
    }

    /// The bytes gathered.
    pub fn bytes(&self) -> (b: &[u8])
        ensures
            b@ == self@.1,
    {
        self.bytes.as_slice()
    }
}

/// The text of name bytes: their UTF-8 decoding, or `fallback` when they
/// are not valid UTF-8.
pub fn name_text(bytes: &[u8], fallback: &str) -> (s: String)
    ensures
        s@ == (if valid_utf8(bytes@) {
            decode_utf8(bytes@)
        } else {
            fallback@
        }),
{
    match utf8_string(bytes) {
        Some(s) => s,
        None => fallback.to_string(),
    }
}

/// The device index probed at step `step`: BLE direct first, then
/// receiver slots 1 to 6.
pub open spec fn probe_index(step: int) -> u8 {
    if step == 0 {
        0xFF
    } else {
        step as u8
    }
}

/// The ping sent at probe step `step` (0 to 6): a distinct software ID
/// per step (`step + 1`), so late answers to an earlier probe do not
/// match.
pub fn probe_request(step: usize) -> (r: LongReport)
    requires
        step < 7,
    ensures
        r@ == request_bytes(probe_index(step as int), 0, 1, (step + 1) as u8, root::ping_params()),
{
    let order = DeviceIndex::probe_order();
    let sw: u8 = if step + 1 < 0x0F {
        (step + 1) as u8
    } else {
        0x0F
    };
    root::encode_ping(order[step], SoftwareId::new(sw))
}

/// Whether a probe response shows a live device: it decodes as a ping
/// answer, i.e. it is not an error response.
pub fn probe_accepts(resp: &LongReport) -> (b: bool)
    ensures
        b == !is_error_report(resp@),
{
    root::decode_ping(resp).is_ok()
}

/// The last of a list of entries with feature ID `id`, if any.
pub open spec fn last_entry_for(entries: Seq<FeatureEntry>, id: u16) -> Option<FeatureEntry>
    decreases entries.len(),
{
    if entries.len() == 0 {
        None
    } else if entries.last().id.0 == id {
        Some(entries.last())
    } else {
        last_entry_for(entries.drop_last(), id)
    }
}

/// Recording entries one after another into an empty table (as discovery
/// does: Root, then each announced feature) leaves each feature ID mapped
/// to the last entry recorded for it, and no other ID present.
pub proof fn lemma_discovery_records_last(tables: Seq<Seq<FeatureEntry>>, entries: Seq<FeatureEntry>)
    requires
        tables.len() == entries.len() + 1,
        tables[0] == Seq::<FeatureEntry>::empty(),
        forall|i: int| 0 <= i < entries.len() ==> recorded(#[trigger] tables[i], tables[i + 1], entries[i]),
    ensures
        forall|id: u16| #[trigger] lookup(tables.last(), id) == last_entry_for(entries, id),
    decreases entries.len(),
{
    if entries.len() == 0 {
        assert forall|id: u16| #[trigger] lookup(tables.last(), id) == last_entry_for(entries, id) by {
            assert(tables.last() == tables[0]);
        }
    } else {
        let n = entries.len() as int;
        let t0 = tables.drop_last();
        let e0 = entries.drop_last();
        assert forall|i: int| 0 <= i < e0.len() implies recorded(#[trigger] t0[i], t0[i + 1], e0[i]) by {
            assert(t0[i] == tables[i]);
            assert(t0[i + 1] == tables[i + 1]);
            assert(e0[i] == entries[i]);
        }
        lemma_discovery_records_last(t0, e0);
        assert(recorded(tables[n - 1], tables[n], entries[n - 1]));
        assert forall|id: u16| #[trigger] lookup(tables.last(), id) == last_entry_for(entries, id) by {
            assert(lookup(tables[n], id) == (if id == entries[n - 1].id.0 {
                Some(entries[n - 1])
            } else {
                lookup(tables[n - 1], id)
            }));
            assert(t0.last() == tables[n - 1]);
            assert(lookup(t0.last(), id) == last_entry_for(e0, id));
        }
    }
}

} // verus!
