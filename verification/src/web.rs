//! The browser front end's own logic: framing WebHID input reports,
//! which configuration sections a device offers, and the configuration
//! text it exports.
use vstd::prelude::*;

use crate::device::table::{lookup, FeatureTable};
use crate::feature_id::{
    ADJUSTABLE_DPI, CHANGE_HOST, DEVICE_FRIENDLY_NAME, FIRMWARE_INFO, HIRES_WHEEL, HOSTS_INFOS,
    SMART_SHIFT, SMART_SHIFT_TUNABLE_TORQUE, SPECIAL_KEYS_V4, THUMBWHEEL, UNIFIED_BATTERY,
};
use crate::report::{LongReport, REPORT_ID_LONG};
use crate::text::{append_decimal_u64, append_str, decimal_text};
use crate::types::FeatureId;

verus! {

broadcast use crate::report::lemma_report_len;

/// The long report a WebHID input report carries: the report ID (which
/// WebHID passes apart) followed by up to 19 data bytes, zero-padded.
/// Reports with another ID are not HID++ long reports.
pub open spec fn framed_report(report_id: u8, data: Seq<u8>) -> Option<Seq<u8>> {
    if report_id != REPORT_ID_LONG {
        None
    } else {
        let n = if data.len() < 19 {
            data.len() as int
        } else {
            19
        };
        Some(Seq::new(20, |i: int| if i == 0 { REPORT_ID_LONG } else if i <= n { data[i - 1] } else { 0u8 }))
    }
}

/// Frame a WebHID input report as a long report.
pub fn frame_input_report(report_id: u8, data: &[u8]) -> (r: Option<LongReport>)
    ensures
        match (r, framed_report(report_id, data@)) {
            (Some(rep), Some(bytes)) => rep@ == bytes,
            (None, None) => true,
            _ => false,
        },
{
    if report_id != REPORT_ID_LONG {
        return None;
    }
    let n: usize = if data.len() < 19 {
        data.len()
    } else {
        19
    };
    let mut report = LongReport::new();
    let mut i: usize = 0;
    while i < n
        invariant
            n <= data@.len(),
            n <= 19,
            i <= n,
            report@.len() == 20,
            report@[0] == REPORT_ID_LONG,
            forall|k: int| 1 <= k <= i ==> report@[k] == data@[k - 1],
            forall|k: int| i < k < 20 ==> report@[k] == 0u8,
        decreases n - i,
    {
        let bytes = report.as_bytes_mut();
        bytes[i + 1] = data[i];
        i = i + 1;
    }
    let ghost n_int: int = n as int;
    assert(report@ =~= Seq::new(
        20,
        |k: int| if k == 0 { REPORT_ID_LONG } else if k <= n_int { data@[k - 1] } else { 0u8 },
    ));
    Some(report)
}

/// Which configuration sections the front end shows for a device.
#[derive(Debug, Clone, Copy, PartialEq, Eq, Structural)]
pub struct SupportedSections {
    pub dpi: bool,
    pub scroll: bool,
    pub buttons: bool,
    pub host: bool,
    pub battery: bool,
    pub thumbwheel: bool,
    pub firmware: bool,
    pub friendly_name: bool,
    pub hosts_info: bool,
}

/// The sections a device's features support: scrolling needs SmartShift
/// (either variant) or HiResWheel; every other section its own feature.
pub fn supported_sections(features: &FeatureTable) -> (s: SupportedSections)
    ensures
        s.dpi == lookup(features@, ADJUSTABLE_DPI) is Some,
        s.scroll == (lookup(features@, SMART_SHIFT) is Some || lookup(
            features@,
            SMART_SHIFT_TUNABLE_TORQUE,
        ) is Some || lookup(features@, HIRES_WHEEL) is Some),
        s.buttons == lookup(features@, SPECIAL_KEYS_V4) is Some,
        s.host == lookup(features@, CHANGE_HOST) is Some,
        s.battery == lookup(features@, UNIFIED_BATTERY) is Some,
        s.thumbwheel == lookup(features@, THUMBWHEEL) is Some,
        s.firmware == lookup(features@, FIRMWARE_INFO) is Some,
        s.friendly_name == lookup(features@, DEVICE_FRIENDLY_NAME) is Some,
        s.hosts_info == lookup(features@, HOSTS_INFOS) is Some,
{
    SupportedSections {
        dpi: features.supports(FeatureId(ADJUSTABLE_DPI)),
        scroll: features.supports(FeatureId(SMART_SHIFT)) || features.supports(
            FeatureId(SMART_SHIFT_TUNABLE_TORQUE),
        ) || features.supports(FeatureId(HIRES_WHEEL)),
        buttons: features.supports(FeatureId(SPECIAL_KEYS_V4)),
        host: features.supports(FeatureId(CHANGE_HOST)),
        battery: features.supports(FeatureId(UNIFIED_BATTERY)),
        thumbwheel: features.supports(FeatureId(THUMBWHEEL)),
        firmware: features.supports(FeatureId(FIRMWARE_INFO)),
        friendly_name: features.supports(FeatureId(DEVICE_FRIENDLY_NAME)),
        hosts_info: features.supports(FeatureId(HOSTS_INFOS)),
    }
}

/// The configuration text the front end exports: the device name, then
/// a DPI section and a SmartShift section for the values that were read.
pub open spec fn config_text(name: Seq<char>, dpi: Option<u16>, mode: Option<Seq<char>>) -> Seq<char> {
    let head = "[device]\nname = \""@ + name + "\"\n"@;
    let with_dpi = match dpi {
        Some(v) => head + "\n[dpi]\nvalue = "@ + decimal_text(v as nat) + "\n"@,
        None => head,
    };
    match mode {
        Some(m) => with_dpi + "\n[smartshift]\nmode = \""@ + m + "\"\n"@,
        None => with_dpi,
    }
}

/// Build the exported configuration text.
pub fn export_config_text(name: &str, dpi: Option<u16>, mode: Option<&str>) -> (s: String)
    ensures
        s@ == config_text(
            name@,
            dpi,
            match mode {
                Some(m) => Some(m@),
                None => None,
            },
        ),
{
    let mut s = String::new();
    append_str(&mut s, "[device]\nname = \"");
    append_str(&mut s, name);
    append_str(&mut s, "\"\n");
    match dpi {
        Some(v) => {
            append_str(&mut s, "\n[dpi]\nvalue = ");
            append_decimal_u64(&mut s, v as u64);
            append_str(&mut s, "\n");
        },
        None => {},
    }
    match mode {
        Some(m) => {
            append_str(&mut s, "\n[smartshift]\nmode = \"");
            append_str(&mut s, m);
            append_str(&mut s, "\"\n");
        },
        None => {},
    }
    s
}

} // verus!
