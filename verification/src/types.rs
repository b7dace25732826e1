//! Identifier newtypes used throughout the HID++ 2.0 protocol.
use vstd::prelude::*;

use crate::text::{append_byte_hex, append_str, byte_hex};

verus! {

/// Device index in HID++ reports.
///
/// - `0xFF` for BLE direct connections
/// - `1..=6` for devices paired through a Bolt/Unifying receiver
#[derive(Debug, Clone, Copy, PartialEq, Eq, Hash, Structural)]
pub struct DeviceIndex(pub u8);

impl DeviceIndex {
    /// BLE direct connection (no receiver).
    pub fn ble_direct() -> (d: DeviceIndex)
        ensures
            d == DeviceIndex(0xFF),
    {
        DeviceIndex(0xFF)
    }

    /// Receiver device slot `slot` (1–6, Bolt/Unifying/Lightspeed).
    pub fn receiver(slot: u8) -> (d: DeviceIndex)
        requires
            1 <= slot <= 6,
        ensures
            d == DeviceIndex(slot),
    {
        DeviceIndex(slot)
    }

    /// All valid device indices in probe order: BLE first, then receiver slots.
    pub fn probe_order() -> (order: [DeviceIndex; 7])
        ensures
            order@ == seq![
                DeviceIndex(0xFF),
                DeviceIndex(1),
                DeviceIndex(2),
                DeviceIndex(3),
                DeviceIndex(4),
                DeviceIndex(5),
                DeviceIndex(6),
            ],
    {
        let order = [
            DeviceIndex::ble_direct(),
            DeviceIndex(1),
            DeviceIndex(2),
            DeviceIndex(3),
            DeviceIndex(4),
            DeviceIndex(5),
            DeviceIndex(6),
        ];
        assert(order@ =~= seq![
            DeviceIndex(0xFF),
            DeviceIndex(1),
            DeviceIndex(2),
            DeviceIndex(3),
            DeviceIndex(4),
            DeviceIndex(5),
            DeviceIndex(6),
        ]);
        order
    }
}

/// A 16-bit HID++ feature identifier.
///
/// Feature IDs are fixed per the HID++ spec (e.g., `0x2110` = SmartShift).
/// They are resolved to runtime [`FeatureIndex`] values via feature `0x0000` (Root).
#[derive(Debug, Clone, Copy, PartialEq, Eq, Hash, PartialOrd, Ord, Structural)]
pub struct FeatureId(pub u16);

impl FeatureId {
    /// The feature ID as it is written: `0x` and four uppercase
    /// hexadecimal digits.
    pub fn to_hex_string(&self) -> (s: String)
        ensures
            s@ == "0x"@ + byte_hex((self.0 / 256) as u8) + byte_hex((self.0 % 256) as u8),
    {
        let mut s = String::new();
        append_str(&mut s, "0x");
        append_byte_hex(&mut s, (self.0 / 256) as u8);
        append_byte_hex(&mut s, (self.0 % 256) as u8);
        s
    }
}

/// Runtime feature index assigned by the device.
///
/// Obtained by querying feature `0x0000` (Root) with a [`FeatureId`].
/// Index `0x00` is always Root itself.
#[derive(Debug, Clone, Copy, PartialEq, Eq, Hash, Structural)]
pub struct FeatureIndex(pub u8);

impl FeatureIndex {
    /// Root feature is always at index 0.
    pub fn root() -> (i: FeatureIndex)
        ensures
            i == FeatureIndex(0x00),
    {
        FeatureIndex(0x00)
    }

    /// Error indicator — responses with this index signal an error.
    pub fn error() -> (i: FeatureIndex)
        ensures
            i == FeatureIndex(0xFF),
    {
        FeatureIndex(0xFF)
    }
}

/// HID++ function ID (0–15): upper nibble of byte 3 in a HID++ report.
#[derive(Debug, Clone, Copy, PartialEq, Eq, Hash, Structural)]
pub struct FunctionId(pub u8);

impl FunctionId {
    /// A function ID; only `0..=15` fit in the report nibble.
    pub fn new(id: u8) -> (f: FunctionId)
        requires
            id <= 0x0F,
        ensures
            f == FunctionId(id),
    {
        FunctionId(id)
    }
}

/// Software ID (0–15): lower nibble of byte 3, used to correlate responses
/// with requests.
#[derive(Debug, Clone, Copy, PartialEq, Eq, Hash, Structural)]
pub struct SoftwareId(pub u8);

impl SoftwareId {
    /// Default SW ID for this tool. Avoids 0 (used by firmware).
    pub fn default_id() -> (s: SoftwareId)
        ensures
            s == SoftwareId(0x01),
    {
        SoftwareId(0x01)
    }

    /// A software ID; only `0..=15` fit in the report nibble.
    pub fn new(id: u8) -> (s: SoftwareId)
        requires
            id <= 0x0F,
        ensures
            s == SoftwareId(id),
    {
        SoftwareId(id)
    }
}

/// Control ID of a physical or virtual button (SpecialKeys feature).
#[derive(Debug, Clone, Copy, PartialEq, Eq, Hash, Structural)]
pub struct ControlId(pub u16);

/// Feature flags returned by FeatureSet::GetFeatureID.
#[derive(Debug, Clone, Copy, PartialEq, Eq, Structural)]
pub struct FeatureFlags {
    bits: u8,
}

/// The bits that carry a defined feature flag.
pub open spec fn feature_flag_bits() -> u8 {
    0xE0
}

impl FeatureFlags {
    /// Feature is hidden from normal software enumeration.
    pub fn engineering_hidden() -> (f: FeatureFlags)
        ensures
            f.spec_bits() == 0x80,
    {
        FeatureFlags { bits: 0x80 }
    }

    /// Feature is hidden from user-facing software.
    pub fn sw_hidden() -> (f: FeatureFlags)
        ensures
            f.spec_bits() == 0x40,
    {
        FeatureFlags { bits: 0x40 }
    }

    /// Feature is obsolete and should not be used.
    pub fn obsolete() -> (f: FeatureFlags)
        ensures
            f.spec_bits() == 0x20,
    {
        FeatureFlags { bits: 0x20 }
    }

    /// The raw flag bits.
    pub closed spec fn spec_bits(&self) -> u8 {
        self.bits
    }

    /// The raw flag bits.
    #[verifier::when_used_as_spec(spec_bits)]
    pub fn bits(&self) -> (b: u8)
        ensures
            b == self.spec_bits(),
    {
        self.bits
    }

    /// No flag set.
    pub fn empty() -> (f: FeatureFlags)
        ensures
            f.spec_bits() == 0,
    {
        FeatureFlags { bits: 0 }
    }

    /// The flags made of the defined bits of `bits`.
    pub closed spec fn spec_from_bits_truncate(bits: u8) -> FeatureFlags {
        FeatureFlags { bits: bits & 0xE0 }
    }

    /// Keep only the defined flag bits of `bits`.
    #[verifier::when_used_as_spec(spec_from_bits_truncate)]
    pub fn from_bits_truncate(bits: u8) -> (f: FeatureFlags)
        ensures
            f == FeatureFlags::spec_from_bits_truncate(bits),
            f.spec_bits() == bits & feature_flag_bits(),
    {
        FeatureFlags { bits: bits & 0xE0 }
    }

    /// Whether no flag is set.
    pub fn is_empty(&self) -> (b: bool)
        ensures
            b == (self.spec_bits() == 0),
    {
        self.bits == 0
    }

    /// Whether every flag of `other` is also set in `self`.
    pub fn contains(&self, other: FeatureFlags) -> (b: bool)
        ensures
            b == (self.spec_bits() & other.spec_bits() == other.spec_bits()),
    {
        self.bits & other.bits == other.bits
    }
}

/// Two sets of feature flags with the same bits are the same flags.
pub proof fn lemma_flags_eq(a: FeatureFlags, b: FeatureFlags)
    requires
        a.spec_bits() == b.spec_bits(),
    ensures
        a == b,
{
}

/// Truncating to the defined bits keeps exactly those bits.
pub proof fn lemma_from_bits_truncate(bits: u8)
    ensures
        FeatureFlags::spec_from_bits_truncate(bits).spec_bits() == bits & feature_flag_bits(),
{
}

} // verus!
