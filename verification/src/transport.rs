//! The transport's own logic: which HID interfaces carry HID++, how a
//! raw read becomes a long report, and which pending request a report
//! answers.
use vstd::prelude::*;

use crate::error::HidppError;
use crate::report::{is_error_report, LongReport, REPORT_ID_LONG};
use crate::types::{FeatureIndex, FunctionId, SoftwareId};

verus! {

broadcast use crate::report::lemma_report_len;

/// Errors from the transport layer.
#[derive(Debug, Clone, PartialEq, Eq)]
pub enum TransportError {
    DeviceNotFound,
    Io(String),
    Timeout,
    Disconnected,
    Hidpp(HidppError),
}

/// Information about a discovered HID device.
#[derive(Debug, Clone)]
pub struct DeviceInfo {
    pub vendor_id: u16,
    pub product_id: u16,
    pub name: Option<String>,
    pub path: String,
}

/// A HID interface as the operating system lists it.
#[derive(Debug, Clone)]
pub struct HidInterface {
    pub vendor_id: u16,
    pub product_id: u16,
    pub usage_page: u16,
    pub product_string: Option<String>,
    pub path: String,
}

/// Logitech vendor ID.
pub const LOGITECH_VID: u16 = 0x046D;

/// Vendor-specific usage page that carries HID++ traffic.
pub const HIDPP_USAGE_PAGE_FF43: u16 = 0xFF43;

/// Vendor-specific usage page that carries HID++ traffic.
pub const HIDPP_USAGE_PAGE_FF00: u16 = 0xFF00;

/// Whether an interface carries HID++: a Logitech device on one of the
/// vendor-specific usage pages.
pub open spec fn carries_hidpp(i: HidInterface) -> bool {
    i.vendor_id == LOGITECH_VID && (i.usage_page == HIDPP_USAGE_PAGE_FF43 || i.usage_page
        == HIDPP_USAGE_PAGE_FF00)
}

/// Whether a device info describes interface `i`.
pub open spec fn describes(d: DeviceInfo, i: HidInterface) -> bool {
    &&& d.vendor_id == i.vendor_id
    &&& d.product_id == i.product_id
    &&& d.name == i.product_string
    &&& d.path == i.path
}

/// The interfaces, in order, that carry HID++.
pub open spec fn hidpp_interfaces(s: Seq<HidInterface>) -> Seq<HidInterface>
    decreases s.len(),
{
    if s.len() == 0 {
        Seq::empty()
    } else if carries_hidpp(s.last()) {
        hidpp_interfaces(s.drop_last()).push(s.last())
    } else {
        hidpp_interfaces(s.drop_last())
    }
}

/// Whether an interface with these IDs carries HID++.
pub fn is_hidpp_interface(vendor_id: u16, usage_page: u16) -> (b: bool)
    ensures
        b == (vendor_id == LOGITECH_VID && (usage_page == HIDPP_USAGE_PAGE_FF43 || usage_page
            == HIDPP_USAGE_PAGE_FF00)),
{
    vendor_id == LOGITECH_VID && (usage_page == HIDPP_USAGE_PAGE_FF43 || usage_page
        == HIDPP_USAGE_PAGE_FF00)
}

/// The HID++ devices among the listed interfaces, in order.
pub fn select_hidpp(interfaces: Vec<HidInterface>) -> (v: Vec<DeviceInfo>)
    ensures
        v@.len() == hidpp_interfaces(interfaces@).len(),
        forall|i: int| 0 <= i < v@.len() ==> describes(#[trigger] v@[i], hidpp_interfaces(interfaces@)[i]),
{
    let ghost all = interfaces@;
    let mut v: Vec<DeviceInfo> = Vec::new();
    for iface in it: interfaces
        invariant
            it.seq() == all,
            v@.len() == hidpp_interfaces(all.take(it.index() as int)).len(),
            forall|i: int|
                0 <= i < v@.len() ==> describes(#[trigger] v@[i], hidpp_interfaces(all.take(it.index() as int))[i]),
    {
        let ghost idx = it.index() as int;
        assert(all.take(idx + 1).drop_last() =~= all.take(idx));
        assert(all.take(idx + 1).last() == iface);
        if is_hidpp_interface(iface.vendor_id, iface.usage_page) {
            let HidInterface { vendor_id, product_id, usage_page: _, product_string, path } = iface;
            v.push(DeviceInfo { vendor_id, product_id, name: product_string, path });
        }
    }
    assert(all.take(all.len() as int) =~= all);
    v
}

/// The long report a raw read of `n` bytes holds, if any: 19 bytes are a
/// long report whose report ID the OS stripped; 20 or more starting with
/// the long report ID are a long report; anything else is skipped.
pub open spec fn read_report(buf: Seq<u8>, n: int) -> Option<Seq<u8>> {
    if n < 4 {
        None
    } else if n == 19 {
        Some(seq![REPORT_ID_LONG] + buf.take(19))
    } else if n >= 20 && buf[0] == REPORT_ID_LONG {
        Some(buf.take(20))
    } else {
        None
    }
}

/// Turn a raw read of `n` bytes into a long report (see `read_report`).
pub fn normalize_read(buf: &[u8], n: usize) -> (r: Option<LongReport>)
    requires
        n <= buf@.len(),
    ensures
        match (r, read_report(buf@, n as int)) {
            (Some(rep), Some(bytes)) => rep@ == bytes,
            (None, None) => true,
            _ => false,
        },
{
    if n < 4 {
        return None;
    }
    let mut full: Vec<u8> = Vec::new();
    if n == 19 {
        full.push(REPORT_ID_LONG);
        let mut i: usize = 0;
        while i < 19
            invariant
                n == 19,
                n <= buf@.len(),
                i <= 19,
                full@ == seq![REPORT_ID_LONG] + buf@.take(i as int),
            decreases 19 - i,
        {
            full.push(buf[i]);
            assert(seq![REPORT_ID_LONG] + buf@.take(i + 1) =~= (seq![REPORT_ID_LONG] + buf@.take(i as int)).push(buf@[i as int]));
            i = i + 1;
        }
    } else if n >= 20 && buf[0] == REPORT_ID_LONG {
        let mut i: usize = 0;
        while i < 20
            invariant
                20 <= n <= buf@.len(),
                i <= 20,
                full@ == buf@.take(i as int),
            decreases 20 - i,
        {
            full.push(buf[i]);
            assert(buf@.take(i + 1) =~= buf@.take(i as int).push(buf@[i as int]));
            i = i + 1;
        }
    } else {
        return None;
    }
    LongReport::from_bytes(full.as_slice())
}

/// What identifies the response to a pending request: the feature index,
/// function ID and software ID of the request.
#[derive(Debug, Clone, Copy, PartialEq, Eq, Structural)]
pub struct PendingKey {
    pub feature_index: FeatureIndex,
    pub function_id: FunctionId,
    pub sw_id: SoftwareId,
}

/// Whether a report carries the feature index, function ID and software
/// ID of `key`.
pub open spec fn key_matches(key: PendingKey, report: Seq<u8>) -> bool {
    &&& report[2] == key.feature_index.0
    &&& report[3] >> 4u8 == key.function_id.0
    &&& report[3] & 0x0Fu8 == key.sw_id.0
}

impl PendingKey {
    /// The key a request is answered under.
    pub fn of_request(request: &LongReport) -> (k: PendingKey)
        ensures
            k.feature_index.0 == request@[2],
            k.function_id.0 == request@[3] >> 4u8,
            k.sw_id.0 == request@[3] & 0x0Fu8,
    {
        PendingKey {
            feature_index: request.feature_index(),
            function_id: request.function_id(),
            sw_id: request.sw_id(),
        }
    }

    /// Check if an incoming report matches this pending request.
    pub fn matches(&self, report: &LongReport) -> (b: bool)
        ensures
            b == key_matches(*self, report@),
    {
        report.feature_index() == self.feature_index && report.function_id() == self.function_id
            && report.sw_id() == self.sw_id
    }
}

/// The first position, from `i` on, of a key with feature index `fi`.
pub open spec fn first_with_index(keys: Seq<PendingKey>, fi: u8, i: int) -> Option<int>
    decreases keys.len() - i,
{
    if i < 0 || i >= keys.len() {
        None
    } else if keys[i].feature_index.0 == fi {
        Some(i)
    } else {
        first_with_index(keys, fi, i + 1)
    }
}

/// The first position, from `i` on, of a key that a report matches.
pub open spec fn first_matching(keys: Seq<PendingKey>, report: Seq<u8>, i: int) -> Option<int>
    decreases keys.len() - i,
{
    if i < 0 || i >= keys.len() {
        None
    } else if key_matches(keys[i], report) {
        Some(i)
    } else {
        first_matching(keys, report, i + 1)
    }
}

/// Which pending request a report answers: an error response answers the
/// first request sent to the feature index it names (byte 3); otherwise
/// the first request whose key the report matches; `None` makes the
/// report a notification.
pub open spec fn route_target(keys: Seq<PendingKey>, report: Seq<u8>) -> Option<int> {
    if is_error_report(report) && first_with_index(keys, report[3], 0) is Some {
        first_with_index(keys, report[3], 0)
    } else {
        first_matching(keys, report, 0)
    }
}

/// Which pending request a report answers over WebHID: an error response
/// answers only the first request sent to the feature index it names
/// (byte 3), and none if there is no such request; any other report the
/// first request whose key it matches.
pub open spec fn web_route_target(keys: Seq<PendingKey>, report: Seq<u8>) -> Option<int> {
    if is_error_report(report) {
        first_with_index(keys, report[3], 0)
    } else {
        first_matching(keys, report, 0)
    }
}

/// Requests waiting for their responses, each with what its response is
/// delivered to.
pub struct PendingTable<T> {
    entries: Vec<(PendingKey, T)>,
}

/// The keys of a list of entries.
pub open spec fn entry_keys<T>(entries: Seq<(PendingKey, T)>) -> Seq<PendingKey> {
    entries.map_values(|e: (PendingKey, T)| e.0)
}

impl<T> View for PendingTable<T> {
    type V = Seq<(PendingKey, T)>;

    closed spec fn view(&self) -> Seq<(PendingKey, T)> {
        self.entries@
    }
}

impl<T> PendingTable<T> {
    /// A table with no pending request.
    pub fn new() -> (t: Self)
        ensures
            t@ == Seq::<(PendingKey, T)>::empty(),
    {
        PendingTable { entries: Vec::new() }
    }

    /// Number of pending requests.
    pub fn len(&self) -> (n: usize)
        ensures
            n == self@.len(),
    {
        self.entries.len()
    }

    /// Register a request, answered under `key`.
    pub fn register(&mut self, key: PendingKey, value: T)
        ensures
            final(self)@ == old(self)@.push((key, value)),
    {
        self.entries.push((key, value));
    }

    fn find_index(&self, fi: FeatureIndex) -> (r: Option<usize>)
        ensures
            match r {
                Some(i) => first_with_index(entry_keys(self@), fi.0, 0) == Some(i as int),
                None => first_with_index(entry_keys(self@), fi.0, 0) is None,
            },
    {
        let ghost keys = entry_keys(self@);
        let mut i: usize = 0;
        while i < self.entries.len()
            invariant
                keys == entry_keys(self@),
                i <= self@.len(),
                first_with_index(keys, fi.0, 0) == first_with_index(keys, fi.0, i as int),
            decreases self@.len() - i,
        {
            if self.entries[i].0.feature_index == fi {
                return Some(i);
            }
            assert(first_with_index(keys, fi.0, i as int) == first_with_index(keys, fi.0, i + 1));
            i = i + 1;
        }
        None
    }

    fn find_match(&self, report: &LongReport) -> (r: Option<usize>)
        ensures
            match r {
                Some(i) => first_matching(entry_keys(self@), report@, 0) == Some(i as int),
                None => first_matching(entry_keys(self@), report@, 0) is None,
            },
    {
        let ghost keys = entry_keys(self@);
        let mut i: usize = 0;
        while i < self.entries.len()
            invariant
                keys == entry_keys(self@),
                i <= self@.len(),
                first_matching(keys, report@, 0) == first_matching(keys, report@, i as int),
            decreases self@.len() - i,
        {
            if self.entries[i].0.matches(report) {
                return Some(i);
            }
            assert(first_matching(keys, report@, i as int) == first_matching(keys, report@, i + 1));
            i = i + 1;
        }
        None
    }

    /// Route an incoming report: the pending request it answers is taken
    /// out of the table (its place filled by the last one) and its value
    /// returned; `None` if it answers none, the table unchanged.
    pub fn route(&mut self, report: &LongReport) -> (r: Option<T>)
        ensures
            match route_target(entry_keys(old(self)@), report@) {
                Some(i) => {
                    &&& r == Some(old(self)@[i].1)
                    &&& final(self)@ == old(self)@.update(i, old(self)@.last()).drop_last()
                },
                None => r is None && final(self)@ == old(self)@,
            },
    {
        let mut target: Option<usize> = None;
        if report.is_error() {
            let orig = FeatureIndex(report.as_bytes()[3]);
            target = self.find_index(orig);
        }
        if target.is_none() {
            target = self.find_match(report);
        }
        match target {
            Some(i) => {
                proof {
                    lemma_first_in_range(entry_keys(self@), report@, i as int);
                }
                let (_, value) = self.entries.swap_remove(i);
                Some(value)
            },
            None => None,
        }
    }
}

impl<T> PendingTable<T> {
    /// Route a report received over WebHID: as `route`, except that an
    /// error response whose feature index no pending request has answers
    /// none.
    pub fn route_web(&mut self, report: &LongReport) -> (r: Option<T>)
        ensures
            match web_route_target(entry_keys(old(self)@), report@) {
                Some(i) => {
                    &&& r == Some(old(self)@[i].1)
                    &&& final(self)@ == old(self)@.update(i, old(self)@.last()).drop_last()
                },
                None => r is None && final(self)@ == old(self)@,
            },
    {
        let target = if report.is_error() {
            let orig = FeatureIndex(report.as_bytes()[3]);
            self.find_index(orig)
        } else {
            self.find_match(report)
        };
        match target {
            Some(i) => {
                proof {
                    lemma_first_in_range(entry_keys(self@), report@, i as int);
                }
                let (_, value) = self.entries.swap_remove(i);
                Some(value)
            },
            None => None,
        }
    }
}

proof fn lemma_first_in_range(keys: Seq<PendingKey>, report: Seq<u8>, i: int)
    requires
        first_with_index(keys, report[3], 0) == Some(i) || first_matching(keys, report, 0) == Some(i),
    ensures
        0 <= i < keys.len(),
{
    if first_with_index(keys, report[3], 0) == Some(i) {
        lemma_first_with_index_range(keys, report[3], 0);
    } else {
        lemma_first_matching_range(keys, report, 0);
    }
}

proof fn lemma_first_with_index_range(keys: Seq<PendingKey>, fi: u8, j: int)
    requires
        0 <= j,
    ensures
        first_with_index(keys, fi, j) matches Some(i) ==> j <= i < keys.len(),
    decreases keys.len() - j,
{
    if j < keys.len() && keys[j].feature_index.0 != fi {
        lemma_first_with_index_range(keys, fi, j + 1);
    }
}

proof fn lemma_first_matching_range(keys: Seq<PendingKey>, report: Seq<u8>, j: int)
    requires
        0 <= j,
    ensures
        first_matching(keys, report, j) matches Some(i) ==> j <= i < keys.len(),
    decreases keys.len() - j,
{
    if j < keys.len() && !key_matches(keys[j], report) {
        lemma_first_matching_range(keys, report, j + 1);
    }
}

} // verus!
