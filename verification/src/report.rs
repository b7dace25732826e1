//! Raw HID++ reports: fixed-size byte buffers with a report ID, device
//! index, feature index, function/software nibbles and parameter bytes.
use vstd::prelude::*;

use crate::error::{DecodeError, HidppError};
use crate::text::{append_byte_hex, append_decimal_u64, append_hex_bytes, append_str, byte_hex, decimal_text, hex_text};
use crate::types::{DeviceIndex, FeatureIndex, FunctionId, SoftwareId};

verus! {

/// Report ID of a short report.
pub const REPORT_ID_SHORT: u8 = 0x10;

/// Report ID of a long report.
pub const REPORT_ID_LONG: u8 = 0x11;

/// Report ID of a very long report.
pub const REPORT_ID_VERY_LONG: u8 = 0x12;

/// The report ID that a zeroed report of `n` bytes starts with.
pub open spec fn report_id_for_len(n: nat) -> u8 {
    if n == 7 {
        REPORT_ID_SHORT
    } else if n == 20 {
        REPORT_ID_LONG
    } else if n == 64 {
        REPORT_ID_VERY_LONG
    } else {
        0
    }
}

/// Byte 3 of a report: the function ID in the upper nibble, the software
/// ID in the lower one.
pub open spec fn function_sw_byte(function: u8, sw: u8) -> u8 {
    (function << 4u8) | (sw & 0x0Fu8)
}

/// Parameter byte `i` of a report (byte `4 + i`).
pub open spec fn param(report: Seq<u8>, i: int) -> u8 {
    report[4 + i]
}

/// A big-endian 16-bit value from two bytes.
pub open spec fn be_u16(hi: u8, lo: u8) -> u16 {
    (hi as int * 256 + lo as int) as u16
}

/// The high byte of a 16-bit value.
pub open spec fn hi_byte(v: u16) -> u8 {
    (v as int / 256) as u8
}

/// The low byte of a 16-bit value.
pub open spec fn lo_byte(v: u16) -> u8 {
    (v as int % 256) as u8
}

/// Read a big-endian 16-bit value from two bytes.
pub fn read_be_u16(hi: u8, lo: u8) -> (v: u16)
    ensures
        v == be_u16(hi, lo),
{
    (hi as u16) * 256 + (lo as u16)
}

/// Split a 16-bit value into its big-endian bytes `(high, low)`.
pub fn split_be_u16(v: u16) -> (b: (u8, u8))
    ensures
        b == (hi_byte(v), lo_byte(v)),
{
    ((v / 256) as u8, (v % 256) as u8)
}

/// Splitting a 16-bit value into big-endian bytes and reading them back
/// gives the value.
pub proof fn lemma_be_u16_roundtrip(v: u16)
    ensures
        be_u16(hi_byte(v), lo_byte(v)) == v,
{
}

/// Whether a report is a HID++ error response (feature index `0xFF`).
pub open spec fn is_error_report(report: Seq<u8>) -> bool {
    report[2] == 0xFF
}

/// The decode error that an error response carries.
pub open spec fn device_error_of(report: Seq<u8>) -> DecodeError {
    DecodeError::DeviceError {
        feature_index: FeatureIndex(report[3]),
        error: HidppError::spec_from_code(report[4]),
    }
}

/// What a decoder returns for a report whose payload reads as `value`:
/// the device error if the report is an error response, else `value`.
pub open spec fn checked<T>(report: Seq<u8>, value: T) -> Result<T, DecodeError> {
    if is_error_report(report) {
        Err(device_error_of(report))
    } else {
        Ok(value)
    }
}

/// The 20 bytes of a HID++ 2.0 long request: report ID, device index,
/// feature index, function/software byte, then the first 16 parameter
/// bytes, zero-padded.
pub open spec fn request_bytes(
    device: u8,
    feature_index: u8,
    function: u8,
    sw: u8,
    params: Seq<u8>,
) -> Seq<u8> {
    Seq::new(
        20,
        |i: int|
            if i == 0 {
                REPORT_ID_LONG
            } else if i == 1 {
                device
            } else if i == 2 {
                feature_index
            } else if i == 3 {
                function_sw_byte(function, sw)
            } else if i - 4 < params.len() {
                params[i - 4]
            } else {
                0u8
            },
    )
}

/// A raw HID++ report of `N` bytes (including report ID).
///
/// HID++ defines three report sizes:
/// - Short:     7 bytes  (report ID `0x10`, 3 bytes params)
/// - Long:     20 bytes  (report ID `0x11`, 16 bytes params)
/// - Very Long: 64 bytes (report ID `0x12`, 60 bytes params)
#[derive(Debug, Clone, PartialEq, Eq)]
pub struct Report<const N: usize> {
    buf: [u8; N],
}

/// Short HID++ report (7 bytes).
pub type ShortReport = Report<7>;

/// Long HID++ report (20 bytes), the standard HID++ 2.0 message format.
pub type LongReport = Report<20>;

/// Very long HID++ report (64 bytes), used for bulk transfers.
pub type VeryLongReport = Report<64>;

impl<const N: usize> View for Report<N> {
    type V = Seq<u8>;

    closed spec fn view(&self) -> Seq<u8> {
        self.buf@
    }
}

/// A report always holds exactly `N` bytes.
pub broadcast proof fn lemma_report_len<const N: usize>(report: &Report<N>)
    ensures
        #[trigger] report@.len() == N,
{
}

impl<const N: usize> Report<N> {
    /// Create a zeroed report with the report ID that matches its size.
    pub fn new() -> (r: Self)
        requires
            N >= 1,
        ensures
            r@ == Seq::new(N as nat, |i: int| if i == 0 { report_id_for_len(N as nat) } else { 0u8 }),
    {
        let mut buf = [0u8; N];
        let id: u8 = if N == 7 {
            REPORT_ID_SHORT
        } else if N == 20 {
            REPORT_ID_LONG
        } else if N == 64 {
            REPORT_ID_VERY_LONG
        } else {
            0
        };
        buf[0] = id;
        let r = Report { buf };
        assert(r@ =~= Seq::new(N as nat, |i: int| if i == 0 { report_id_for_len(N as nat) } else { 0u8 }));
        r
    }

    /// Create from raw bytes; `None` unless there are exactly `N` of them.
    pub fn from_bytes(bytes: &[u8]) -> (r: Option<Self>)
        ensures
            r is Some <==> bytes@.len() == N,
            r matches Some(rep) ==> rep@ == bytes@,
    {
        if bytes.len() != N {
            return None;
        }
        let mut buf = [0u8; N];
        let mut i: usize = 0;
        while i < N
            invariant
                bytes@.len() == N,
                i <= N,
                forall|j: int| 0 <= j < i ==> buf@[j] == bytes@[j],
            decreases N - i,
        {
            buf[i] = bytes[i];
            i = i + 1;
        }
        let r = Report { buf };
        assert(r@ =~= bytes@);
        Some(r)
    }

    /// The raw byte buffer.
    pub fn as_bytes(&self) -> (b: &[u8; N])
        ensures
            b@ == self@,
    {
        &self.buf
    }

    /// Mutable access to the raw buffer.
    pub fn as_bytes_mut(&mut self) -> (b: &mut [u8; N])
        ensures
            b@ == old(self)@,
            final(self)@ == final(b)@,
    {
        &mut self.buf
    }

    /// Report ID (byte 0).
    pub fn report_id(&self) -> (id: u8)
        requires
            N >= 1,
        ensures
            id == self@[0],
    {
        self.buf[0]
    }

    /// Device index (byte 1).
    pub fn device_index(&self) -> (d: DeviceIndex)
        requires
            N >= 2,
        ensures
            d == DeviceIndex(self@[1]),
    {
        DeviceIndex(self.buf[1])
    }

    /// Set device index (byte 1).
    pub fn set_device_index(&mut self, idx: DeviceIndex)
        requires
            N >= 2,
        ensures
            final(self)@ == old(self)@.update(1, idx.0),
    {
        self.buf[1] = idx.0;
    }

    /// Feature index (byte 2).
    pub fn feature_index(&self) -> (f: FeatureIndex)
        requires
            N >= 3,
        ensures
            f == FeatureIndex(self@[2]),
    {
        FeatureIndex(self.buf[2])
    }

    /// Set feature index (byte 2).
    pub fn set_feature_index(&mut self, idx: FeatureIndex)
        requires
            N >= 3,
        ensures
            final(self)@ == old(self)@.update(2, idx.0),
    {
        self.buf[2] = idx.0;
    }

    /// Function ID — upper nibble of byte 3.
    pub fn function_id(&self) -> (f: FunctionId)
        requires
            N >= 4,
        ensures
            f == FunctionId(self@[3] >> 4u8),
    {
        FunctionId(self.buf[3] >> 4)
    }

    /// Software ID — lower nibble of byte 3.
    pub fn sw_id(&self) -> (s: SoftwareId)
        requires
            N >= 4,
        ensures
            s == SoftwareId(self@[3] & 0x0Fu8),
    {
        SoftwareId(self.buf[3] & 0x0F)
    }

    /// Set function ID and software ID (byte 3).
    pub fn set_function_sw(&mut self, func: FunctionId, sw: SoftwareId)
        requires
            N >= 4,
        ensures
            final(self)@ == old(self)@.update(3, function_sw_byte(func.0, sw.0)),
    {
        self.buf[3] = (func.0 << 4) | (sw.0 & 0x0F);
    }

    /// Parameter bytes (bytes `4..N`).
    pub fn params(&self) -> (p: &[u8])
        requires
            N >= 4,
        ensures
            p@ == self@.subrange(4, N as int),
    {
        vstd::slice::slice_subrange(self.buf.as_slice(), 4, N)
    }

    /// Mutable parameter bytes (bytes `4..N`).
    pub fn params_mut(&mut self) -> (p: &mut [u8])
        requires
            N >= 4,
        ensures
            p@ == old(self)@.subrange(4, N as int),
            final(self)@ == old(self)@.subrange(0, 4) + final(p)@,
    {
        let whole: &mut [u8] = &mut self.buf;
        let (_, tail) = whole.split_at_mut(4);
        tail
    }

    /// Check if this report is an error response (feature index == 0xFF).
    pub fn is_error(&self) -> (b: bool)
        requires
            N >= 3,
        ensures
            b == is_error_report(self@),
    {
        self.buf[2] == 0xFF
    }

    /// If this is an error response, decode it into
    /// `(original_feature_index, error_code)`.
    pub fn decode_error(&self) -> (r: Option<(FeatureIndex, HidppError)>)
        requires
            N >= 5,
        ensures
            r == (if is_error_report(self@) {
                Some((FeatureIndex(self@[3]), HidppError::spec_from_code(self@[4])))
            } else {
                None
            }),
    {
        if !self.is_error() {
            return None;
        }
        let orig_feature_index = FeatureIndex(self.buf[3]);
        let error_code = HidppError::from_code(self.buf[4]);
        Some((orig_feature_index, error_code))
    }

    /// Check for an error response and return a `DecodeError` if present.
    pub fn check_error(&self) -> (r: Result<(), DecodeError>)
        requires
            N >= 5,
        ensures
            r == checked(self@, ()),
    {
        if let Some((feature_index, error)) = self.decode_error() {
            Err(DecodeError::DeviceError { feature_index, error })
        } else {
            Ok(())
        }
    }

    /// The debugging text of a report: its size, its four header bytes
    /// separated by colons, then its parameter bytes, in hexadecimal.
    pub open spec fn debug_text_of(bytes: Seq<u8>) -> Seq<char> {
        "Report<"@ + decimal_text(bytes.len()) + ">("@ + byte_hex(bytes[0]) + ":"@ + byte_hex(bytes[1])
            + ":"@ + byte_hex(bytes[2]) + ":"@ + byte_hex(bytes[3]) + " "@ + hex_text(
            bytes.subrange(4, bytes.len() as int),
        ) + ")"@
    }

    /// The report as debugging text, e.g. `Report<20>(11:FF:05:21 AA BB ...)`.
    pub fn debug_text(&self) -> (s: String)
        requires
            N >= 4,
        ensures
            s@ == Self::debug_text_of(self@),
    {
        let mut s = String::new();
        append_str(&mut s, "Report<");
        append_decimal_u64(&mut s, N as u64);
        append_str(&mut s, ">(");
        append_byte_hex(&mut s, self.buf[0]);
        append_str(&mut s, ":");
        append_byte_hex(&mut s, self.buf[1]);
        append_str(&mut s, ":");
        append_byte_hex(&mut s, self.buf[2]);
        append_str(&mut s, ":");
        append_byte_hex(&mut s, self.buf[3]);
        append_str(&mut s, " ");
        append_hex_bytes(&mut s, self.params());
        append_str(&mut s, ")");
        s
    }
}

impl Report<20> {
    /// Build a HID++ 2.0 long report request. Parameters beyond the 16
    /// that fit are dropped; missing ones are zero.
    pub fn request(
        device: DeviceIndex,
        feature_index: FeatureIndex,
        function: FunctionId,
        sw_id: SoftwareId,
        params: &[u8],
    ) -> (r: Self)
        ensures
            r@ == request_bytes(device.0, feature_index.0, function.0, sw_id.0, params@),
    {
        let mut report = Self::new();
        report.set_device_index(device);
        report.set_feature_index(feature_index);
        report.set_function_sw(function, sw_id);

        let param_len: usize = if params.len() < 16 {
            params.len()
        } else {
            16
        };
        let mut i: usize = 0;
        while i < param_len
            invariant
                param_len <= 16,
                param_len <= params@.len(),
                i <= param_len,
                report@.len() == 20,
                report@[0] == REPORT_ID_LONG,
                report@[1] == device.0,
                report@[2] == feature_index.0,
                report@[3] == function_sw_byte(function.0, sw_id.0),
                forall|j: int| 4 <= j < 4 + i ==> report@[j] == params@[j - 4],
                forall|j: int| 4 + i <= j < 20 ==> report@[j] == 0,
            decreases param_len - i,
        {
            report.buf[4 + i] = params[i];
            i = i + 1;
        }
        assert(report@ =~= request_bytes(device.0, feature_index.0, function.0, sw_id.0, params@));
        report
    }
}

impl Default for Report<7> {
    fn default() -> (r: Self)
        ensures
            r@ == Seq::new(7, |i: int| if i == 0 { REPORT_ID_SHORT } else { 0u8 }),
    {
        let r = Self::new();
        assert(r@ =~= Seq::new(7, |i: int| if i == 0 { REPORT_ID_SHORT } else { 0u8 }));
        r
    }
}

impl Default for Report<20> {
    fn default() -> (r: Self)
        ensures
            r@ == Seq::new(20, |i: int| if i == 0 { REPORT_ID_LONG } else { 0u8 }),
    {
        let r = Self::new();
        assert(r@ =~= Seq::new(20, |i: int| if i == 0 { REPORT_ID_LONG } else { 0u8 }));
        r
    }
}

impl Default for Report<64> {
    fn default() -> (r: Self)
        ensures
            r@ == Seq::new(64, |i: int| if i == 0 { REPORT_ID_VERY_LONG } else { 0u8 }),
    {
        let r = Self::new();
        assert(r@ =~= Seq::new(64, |i: int| if i == 0 { REPORT_ID_VERY_LONG } else { 0u8 }));
        r
    }
}

/// The function/software byte keeps both nibbles: the function ID reads
/// back from the upper nibble and the software ID from the lower one.
pub proof fn lemma_function_sw_byte(function: u8, sw: u8)
    requires
        function <= 0x0F,
    ensures
        function_sw_byte(function, sw) >> 4u8 == function,
        function_sw_byte(function, sw) & 0x0Fu8 == sw & 0x0Fu8,
{
    assert(((function << 4u8) | (sw & 0x0Fu8)) >> 4u8 == function) by (bit_vector)
        requires
            function <= 0x0F,
    ;
    assert(((function << 4u8) | (sw & 0x0Fu8)) & 0x0Fu8 == sw & 0x0Fu8) by (bit_vector);
}

/// A built request reads back what it was built from: report ID, device,
/// feature index, function and software IDs, and the first 16 parameter
/// bytes followed by zeros.
pub proof fn lemma_request_reads_back(
    device: DeviceIndex,
    feature_index: FeatureIndex,
    function: FunctionId,
    sw_id: SoftwareId,
    params: Seq<u8>,
)
    requires
        function.0 <= 0x0F,
    ensures
        ({
            let r = request_bytes(device.0, feature_index.0, function.0, sw_id.0, params);
            &&& r.len() == 20
            &&& r[0] == REPORT_ID_LONG
            &&& DeviceIndex(r[1]) == device
            &&& FeatureIndex(r[2]) == feature_index
            &&& FunctionId(r[3] >> 4u8) == function
            &&& SoftwareId(r[3] & 0x0Fu8) == SoftwareId(sw_id.0 & 0x0Fu8)
            &&& forall|i: int| 0 <= i < 16 && i < params.len() ==> #[trigger] param(r, i) == params[i]
            &&& forall|i: int| params.len() <= i < 16 ==> #[trigger] param(r, i) == 0
        }),
{
    lemma_function_sw_byte(function.0, sw_id.0);
}

} // verus!
