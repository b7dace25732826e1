//! HID++ Feature 0x2201 — AdjustableDPI.
//!
//! Read and set the mouse sensor DPI (function 0: GetSensorCount, 1:
//! GetSensorDPIList, 2: GetSensorDPI, 3: SetSensorDPI, 4: GetDefaultDPI).
use vstd::prelude::*;

use crate::error::DecodeError;
use crate::report::{
    be_u16, checked, device_error_of, hi_byte, is_error_report, lo_byte, param, read_be_u16,
    request_bytes, split_be_u16, LongReport,
};
use crate::types::{DeviceIndex, FeatureIndex, FunctionId, SoftwareId};

verus! {

broadcast use crate::report::lemma_report_len;

/// DPI range description.
#[derive(Debug, Clone, PartialEq, Eq, Structural)]
pub struct DpiRange {
    /// Minimum DPI value.
    pub min: u16,
    /// Maximum DPI value.
    pub max: u16,
    /// Step size between valid DPI values.
    pub step: u16,
}

/// Decoded DPI list — either a continuous range or discrete values.
#[derive(Debug, Clone, PartialEq, Eq)]
pub enum DpiList {
    /// Continuous range with step.
    Range(DpiRange),
    /// Discrete list of supported values.
    Discrete(Vec<u16>),
}

/// The mathematical content of a [`DpiList`].
pub enum DpiListView {
    Range(DpiRange),
    Discrete(Seq<u16>),
}

impl View for DpiList {
    type V = DpiListView;

    open spec fn view(&self) -> DpiListView {
        match self {
            DpiList::Range(r) => DpiListView::Range(*r),
            DpiList::Discrete(v) => DpiListView::Discrete(v@),
        }
    }
}

/// Word `j` of a DPI list payload: bytes `2j` and `2j + 1`, big-endian.
pub open spec fn dpi_word(p: Seq<u8>, j: int) -> u16 {
    be_u16(p[2 * j], p[2 * j + 1])
}

/// The words `0..n` of a DPI list payload.
pub open spec fn dpi_words(p: Seq<u8>, n: int) -> Seq<u16> {
    Seq::new(n as nat, |j: int| dpi_word(p, j))
}

/// The number of words, counted from word `j`, before the list ends: at
/// the first zero word, or when no whole word is left.
pub open spec fn dpi_list_end(p: Seq<u8>, j: int) -> int
    decreases p.len() - 2 * j,
{
    if j < 0 || 2 * j + 1 >= p.len() || dpi_word(p, j) == 0 {
        j
    } else {
        dpi_list_end(p, j + 1)
    }
}

/// Whether a word is a step indicator (one of the top three bits set).
pub open spec fn is_step_word(w: u16) -> bool {
    w & 0xE000u16 != 0
}

/// The step of the last step indicator in a list of words (its lower 13
/// bits), if there is one.
pub open spec fn last_step(words: Seq<u16>) -> Option<u16>
    decreases words.len(),
{
    if words.len() == 0 {
        None
    } else if is_step_word(words.last()) {
        Some(words.last() & 0x1FFFu16)
    } else {
        last_step(words.drop_last())
    }
}

/// The DPI values of a list of words: the words that are not step
/// indicators, in order.
pub open spec fn dpi_values(words: Seq<u16>) -> Seq<u16> {
    words.filter(|w: u16| !is_step_word(w))
}

/// The DPI list that a GetSensorDPIList payload describes: the words up to
/// the first zero word; a range from the first to the last value when a
/// step indicator with a non-zero step is present and there are at least
/// two values, else the values themselves.
pub open spec fn dpi_list_of(p: Seq<u8>) -> DpiListView {
    let words = dpi_words(p, dpi_list_end(p, 0));
    let values = dpi_values(words);
    match last_step(words) {
        Some(step) => if values.len() >= 2 && step != 0 {
            DpiListView::Range(DpiRange { min: values[0], max: values.last(), step })
        } else {
            DpiListView::Discrete(values)
        },
        None => DpiListView::Discrete(values),
    }
}

/// Function 0: GetSensorCount.
pub fn encode_get_sensor_count(
    device: DeviceIndex,
    feature_index: FeatureIndex,
    sw_id: SoftwareId,
) -> (r: LongReport)
    ensures
        r@ == request_bytes(device.0, feature_index.0, 0, sw_id.0, Seq::empty()),
{
    LongReport::request(device, feature_index, FunctionId(0), sw_id, &[])
}

/// Decode GetSensorCount.
pub fn decode_get_sensor_count(report: &LongReport) -> (r: Result<u8, DecodeError>)
    ensures
        r == checked(report@, param(report@, 0)),
{
    report.check_error()?;
    Ok(report.params()[0])
}

/// Function 1: GetSensorDPIList.
pub fn encode_get_dpi_list(
    device: DeviceIndex,
    feature_index: FeatureIndex,
    sensor_index: u8,
    sw_id: SoftwareId,
) -> (r: LongReport)
    ensures
        r@ == request_bytes(device.0, feature_index.0, 1, sw_id.0, seq![sensor_index]),
{
    let params = [sensor_index];
    let r = LongReport::request(device, feature_index, FunctionId(1), sw_id, &params);
    assert(params@ =~= seq![sensor_index]);
    r
}

/// Decode GetSensorDPIList: big-endian words up to the first zero word;
/// words with any of the top three bits set are step indicators (lower 13
/// bits the step), the others DPI values.
pub fn decode_get_dpi_list(report: &LongReport) -> (r: Result<DpiList, DecodeError>)
    ensures
        match r {
            Ok(list) => !is_error_report(report@) && list@ == dpi_list_of(report@.subrange(4, 20)),
            Err(e) => is_error_report(report@) && e == device_error_of(report@),
        },
{
    report.check_error()?;
    let p = report.params();
    let ghost ps = p@;

    let mut values: Vec<u16> = Vec::new();
    let mut step: Option<u16> = None;
    let mut done = false;
    let mut i: usize = 0;
    let ghost mut j: int = 0;
    while !done && i + 1 < p.len()
        invariant
            p@ == ps,
            ps.len() == 16,
            i == 2 * j,
            0 <= j <= 8,
            !done ==> dpi_list_end(ps, 0) == dpi_list_end(ps, j),
            done ==> dpi_list_end(ps, 0) == j,
            values@ == dpi_values(dpi_words(ps, j)),
            step == last_step(dpi_words(ps, j)),
        decreases 2 * (16 - i) + (if done { 0int } else { 1int }),
    {
        let val = read_be_u16(p[i], p[i + 1]);
        if val == 0 {
            done = true;
        } else {
            let ghost before = dpi_words(ps, j);
            assert(dpi_words(ps, j + 1).drop_last() =~= before);
            assert(dpi_words(ps, j + 1).last() == val);
            reveal(Seq::filter);
            if val & 0xE000 != 0 {
                step = Some(val & 0x1FFF);
            } else {
                values.push(val);
            }
            i = i + 2;
            proof {
                j = j + 1;
            }
        }
    }
    assert(dpi_list_end(ps, 0) == j);
    assert(ps == report@.subrange(4, 20));

    if let Some(step) = step {
        if values.len() >= 2 && step != 0 {
            Ok(DpiList::Range(DpiRange { min: values[0], max: values[values.len() - 1], step }))
        } else {
            Ok(DpiList::Discrete(values))
        }
    } else {
        Ok(DpiList::Discrete(values))
    }
}

/// Function 2: GetSensorDPI — read the current DPI value.
pub fn encode_get_dpi(
    device: DeviceIndex,
    feature_index: FeatureIndex,
    sensor_index: u8,
    sw_id: SoftwareId,
) -> (r: LongReport)
    ensures
        r@ == request_bytes(device.0, feature_index.0, 2, sw_id.0, seq![sensor_index]),
{
    let params = [sensor_index];
    let r = LongReport::request(device, feature_index, FunctionId(2), sw_id, &params);
    assert(params@ =~= seq![sensor_index]);
    r
}

/// Decode GetSensorDPI: the sensor index is echoed first, then the DPI
/// big-endian.
pub fn decode_get_dpi(report: &LongReport) -> (r: Result<u16, DecodeError>)
    ensures
        r == checked(report@, be_u16(param(report@, 1), param(report@, 2))),
{
    report.check_error()?;
    let p = report.params();
    Ok(read_be_u16(p[1], p[2]))
}

/// Function 3: SetSensorDPI — sensor index, then the DPI big-endian.
pub fn encode_set_dpi(
    device: DeviceIndex,
    feature_index: FeatureIndex,
    sensor_index: u8,
    dpi: u16,
    sw_id: SoftwareId,
) -> (r: LongReport)
    ensures
        r@ == request_bytes(device.0, feature_index.0, 3, sw_id.0, seq![sensor_index, hi_byte(dpi), lo_byte(dpi)]),
{
    let (hi, lo) = split_be_u16(dpi);
    let params = [sensor_index, hi, lo];
    let r = LongReport::request(device, feature_index, FunctionId(3), sw_id, &params);
    assert(params@ =~= seq![sensor_index, hi_byte(dpi), lo_byte(dpi)]);
    r
}

/// Decode SetSensorDPI: the DPI actually applied.
pub fn decode_set_dpi(report: &LongReport) -> (r: Result<u16, DecodeError>)
    ensures
        r == checked(report@, be_u16(param(report@, 1), param(report@, 2))),
{
    decode_get_dpi(report)
}

/// Function 4: GetDefaultDPI.
pub fn encode_get_default_dpi(
    device: DeviceIndex,
    feature_index: FeatureIndex,
    sensor_index: u8,
    sw_id: SoftwareId,
) -> (r: LongReport)
    ensures
        r@ == request_bytes(device.0, feature_index.0, 4, sw_id.0, seq![sensor_index]),
{
    let params = [sensor_index];
    let r = LongReport::request(device, feature_index, FunctionId(4), sw_id, &params);
    assert(params@ =~= seq![sensor_index]);
    r
}

/// Decode GetDefaultDPI (same payload as GetSensorDPI).
pub fn decode_get_default_dpi(report: &LongReport) -> (r: Result<u16, DecodeError>)
    ensures
        r == checked(report@, be_u16(param(report@, 1), param(report@, 2))),
{
    decode_get_dpi(report)
}

/// A SetSensorDPI request, read as a DPI payload, gives back the DPI it
/// sets (unless the feature index is `0xFF`, which marks error reports).
pub proof fn lemma_set_dpi_roundtrip(
    device: DeviceIndex,
    feature_index: FeatureIndex,
    sensor_index: u8,
    dpi: u16,
    sw_id: SoftwareId,
)
    requires
        feature_index.0 != 0xFF,
    ensures
        ({
            let r = request_bytes(device.0, feature_index.0, 3, sw_id.0, seq![sensor_index, hi_byte(dpi), lo_byte(dpi)]);
            !is_error_report(r) && be_u16(param(r, 1), param(r, 2)) == dpi
        }),
{
    crate::report::lemma_be_u16_roundtrip(dpi);
}

} // verus!
