//! The cluster library's data types and status codes, and how they are
//! written on the air.
use vstd::prelude::*;

use crate::bytes::{copy_range, le_at, le_bytes, spec_le_at, spec_u16_at, u16_at, write_le, write_slice, ParseError};
use vstd::slice::slice_subrange;
use vstd::string::StringSliceAdditionalSpecFns;
use crate::common::ExtendedAddress;
use vstd::utf8::{decode_utf8, encode_utf8, valid_utf8};

verus! {

/// The status of a cluster library command.
#[derive(Clone, Copy, Debug, PartialEq, Eq, Structural)]
pub enum ZclStatus {
    Success,
    Failure,
    NotAuthorized,
    ReservedFieldNotZero,
    MalformedCommand,
    UnsupClusterCommand,
    UnsupGeneralCommand,
    UnsupManufClusterCommand,
    UnsupManufGeneralCommand,
    InvalidField,
    UnsupportedAttribute,
    InvalidValue,
    ReadOnly,
    InsufficientSpace,
    DuplicateExists,
    NotFound,
    UnreportableAttribute,
    InvalidDataType,
    InvalidSelector,
    WriteOnly,
    InconsistentStartupState,
    DefinedOutOfBand,
    Inconsistent,
    ActionDenied,
    Timeout,
    Abort,
    InvalidImage,
    WaitForData,
    NoImageAvailable,
    RequireMoreImage,
    NotificationPending,
    HardwareFailure,
    SoftwareFailure,
    CalibrationError,
    UnsupportedCluster,
}

impl ZclStatus {
    /// The status code on the air.
    pub open spec fn spec_code(self) -> u8 {
        match self {
            ZclStatus::Success => 0x00,
            ZclStatus::Failure => 0x01,
            ZclStatus::NotAuthorized => 0x7e,
            ZclStatus::ReservedFieldNotZero => 0x7f,
            ZclStatus::MalformedCommand => 0x80,
            ZclStatus::UnsupClusterCommand => 0x81,
            ZclStatus::UnsupGeneralCommand => 0x82,
            ZclStatus::UnsupManufClusterCommand => 0x83,
            ZclStatus::UnsupManufGeneralCommand => 0x84,
            ZclStatus::InvalidField => 0x85,
            ZclStatus::UnsupportedAttribute => 0x86,
            ZclStatus::InvalidValue => 0x87,
            ZclStatus::ReadOnly => 0x88,
            ZclStatus::InsufficientSpace => 0x89,
            ZclStatus::DuplicateExists => 0x8a,
            ZclStatus::NotFound => 0x8b,
            ZclStatus::UnreportableAttribute => 0x8c,
            ZclStatus::InvalidDataType => 0x8d,
            ZclStatus::InvalidSelector => 0x8e,
            ZclStatus::WriteOnly => 0x8f,
            ZclStatus::InconsistentStartupState => 0x90,
            ZclStatus::DefinedOutOfBand => 0x91,
            ZclStatus::Inconsistent => 0x92,
            ZclStatus::ActionDenied => 0x93,
            ZclStatus::Timeout => 0x94,
            ZclStatus::Abort => 0x95,
            ZclStatus::InvalidImage => 0x96,
            ZclStatus::WaitForData => 0x97,
            ZclStatus::NoImageAvailable => 0x98,
            ZclStatus::RequireMoreImage => 0x99,
            ZclStatus::NotificationPending => 0x9a,
            ZclStatus::HardwareFailure => 0xc0,
            ZclStatus::SoftwareFailure => 0xc1,
            ZclStatus::CalibrationError => 0xc2,
            ZclStatus::UnsupportedCluster => 0xc3,
        }
    }

    /// The status a code stands for, if any.
    pub open spec fn spec_from_code(v: u8) -> Option<ZclStatus> {
        if v == 0x00 {
            Some(ZclStatus::Success)
        } else if v == 0x01 {
            Some(ZclStatus::Failure)
        } else if v == 0x7e {
            Some(ZclStatus::NotAuthorized)
        } else if v == 0x7f {
            Some(ZclStatus::ReservedFieldNotZero)
        } else if v == 0x80 {
            Some(ZclStatus::MalformedCommand)
        } else if v == 0x81 {
            Some(ZclStatus::UnsupClusterCommand)
        } else if v == 0x82 {
            Some(ZclStatus::UnsupGeneralCommand)
        } else if v == 0x83 {
            Some(ZclStatus::UnsupManufClusterCommand)
        } else if v == 0x84 {
            Some(ZclStatus::UnsupManufGeneralCommand)
        } else if v == 0x85 {
            Some(ZclStatus::InvalidField)
        } else if v == 0x86 {
            Some(ZclStatus::UnsupportedAttribute)
        } else if v == 0x87 {
            Some(ZclStatus::InvalidValue)
        } else if v == 0x88 {
            Some(ZclStatus::ReadOnly)
        } else if v == 0x89 {
            Some(ZclStatus::InsufficientSpace)
        } else if v == 0x8a {
            Some(ZclStatus::DuplicateExists)
        } else if v == 0x8b {
            Some(ZclStatus::NotFound)
        } else if v == 0x8c {
            Some(ZclStatus::UnreportableAttribute)
        } else if v == 0x8d {
            Some(ZclStatus::InvalidDataType)
        } else if v == 0x8e {
            Some(ZclStatus::InvalidSelector)
        } else if v == 0x8f {
            Some(ZclStatus::WriteOnly)
        } else if v == 0x90 {
            Some(ZclStatus::InconsistentStartupState)
        } else if v == 0x91 {
            Some(ZclStatus::DefinedOutOfBand)
        } else if v == 0x92 {
            Some(ZclStatus::Inconsistent)
        } else if v == 0x93 {
            Some(ZclStatus::ActionDenied)
        } else if v == 0x94 {
            Some(ZclStatus::Timeout)
        } else if v == 0x95 {
            Some(ZclStatus::Abort)
        } else if v == 0x96 {
            Some(ZclStatus::InvalidImage)
        } else if v == 0x97 {
            Some(ZclStatus::WaitForData)
        } else if v == 0x98 {
            Some(ZclStatus::NoImageAvailable)
        } else if v == 0x99 {
            Some(ZclStatus::RequireMoreImage)
        } else if v == 0x9a {
            Some(ZclStatus::NotificationPending)
        } else if v == 0xc0 {
            Some(ZclStatus::HardwareFailure)
        } else if v == 0xc1 {
            Some(ZclStatus::SoftwareFailure)
        } else if v == 0xc2 {
            Some(ZclStatus::CalibrationError)
        } else if v == 0xc3 {
            Some(ZclStatus::UnsupportedCluster)
        } else {
            None
        }
    }

    pub fn code(&self) -> (r: u8)
        ensures
            r == self.spec_code(),
    {
        match self {
            ZclStatus::Success => 0x00,
            ZclStatus::Failure => 0x01,
            ZclStatus::NotAuthorized => 0x7e,
            ZclStatus::ReservedFieldNotZero => 0x7f,
            ZclStatus::MalformedCommand => 0x80,
            ZclStatus::UnsupClusterCommand => 0x81,
            ZclStatus::UnsupGeneralCommand => 0x82,
            ZclStatus::UnsupManufClusterCommand => 0x83,
            ZclStatus::UnsupManufGeneralCommand => 0x84,
            ZclStatus::InvalidField => 0x85,
            ZclStatus::UnsupportedAttribute => 0x86,
            ZclStatus::InvalidValue => 0x87,
            ZclStatus::ReadOnly => 0x88,
            ZclStatus::InsufficientSpace => 0x89,
            ZclStatus::DuplicateExists => 0x8a,
            ZclStatus::NotFound => 0x8b,
            ZclStatus::UnreportableAttribute => 0x8c,
            ZclStatus::InvalidDataType => 0x8d,
            ZclStatus::InvalidSelector => 0x8e,
            ZclStatus::WriteOnly => 0x8f,
            ZclStatus::InconsistentStartupState => 0x90,
            ZclStatus::DefinedOutOfBand => 0x91,
            ZclStatus::Inconsistent => 0x92,
            ZclStatus::ActionDenied => 0x93,
            ZclStatus::Timeout => 0x94,
            ZclStatus::Abort => 0x95,
            ZclStatus::InvalidImage => 0x96,
            ZclStatus::WaitForData => 0x97,
            ZclStatus::NoImageAvailable => 0x98,
            ZclStatus::RequireMoreImage => 0x99,
            ZclStatus::NotificationPending => 0x9a,
            ZclStatus::HardwareFailure => 0xc0,
            ZclStatus::SoftwareFailure => 0xc1,
            ZclStatus::CalibrationError => 0xc2,
            ZclStatus::UnsupportedCluster => 0xc3,
        }
    }

    /// Reads a status code; a code that names no status is refused.
    pub fn from_code(v: u8) -> (r: Option<ZclStatus>)
        ensures
            r == ZclStatus::spec_from_code(v),
    {
        match v {
            0x00 => Some(ZclStatus::Success),
            0x01 => Some(ZclStatus::Failure),
            0x7e => Some(ZclStatus::NotAuthorized),
            0x7f => Some(ZclStatus::ReservedFieldNotZero),
            0x80 => Some(ZclStatus::MalformedCommand),
            0x81 => Some(ZclStatus::UnsupClusterCommand),
            0x82 => Some(ZclStatus::UnsupGeneralCommand),
            0x83 => Some(ZclStatus::UnsupManufClusterCommand),
            0x84 => Some(ZclStatus::UnsupManufGeneralCommand),
            0x85 => Some(ZclStatus::InvalidField),
            0x86 => Some(ZclStatus::UnsupportedAttribute),
            0x87 => Some(ZclStatus::InvalidValue),
            0x88 => Some(ZclStatus::ReadOnly),
            0x89 => Some(ZclStatus::InsufficientSpace),
            0x8a => Some(ZclStatus::DuplicateExists),
            0x8b => Some(ZclStatus::NotFound),
            0x8c => Some(ZclStatus::UnreportableAttribute),
            0x8d => Some(ZclStatus::InvalidDataType),
            0x8e => Some(ZclStatus::InvalidSelector),
            0x8f => Some(ZclStatus::WriteOnly),
            0x90 => Some(ZclStatus::InconsistentStartupState),
            0x91 => Some(ZclStatus::DefinedOutOfBand),
            0x92 => Some(ZclStatus::Inconsistent),
            0x93 => Some(ZclStatus::ActionDenied),
            0x94 => Some(ZclStatus::Timeout),
            0x95 => Some(ZclStatus::Abort),
            0x96 => Some(ZclStatus::InvalidImage),
            0x97 => Some(ZclStatus::WaitForData),
            0x98 => Some(ZclStatus::NoImageAvailable),
            0x99 => Some(ZclStatus::RequireMoreImage),
            0x9a => Some(ZclStatus::NotificationPending),
            0xc0 => Some(ZclStatus::HardwareFailure),
            0xc1 => Some(ZclStatus::SoftwareFailure),
            0xc2 => Some(ZclStatus::CalibrationError),
            0xc3 => Some(ZclStatus::UnsupportedCluster),
            _ => None,
        }
    }

    /// Reading back the code of a status gives the status.
    pub proof fn lemma_code_roundtrip(self)
        ensures
            ZclStatus::spec_from_code(self.spec_code()) == Some(self),
    {
    }
}

/// Each status is written with its code of the cluster library
/// specification, and each of those codes reads back as its status; no
/// code reads back as a status whose code it is not.
pub proof fn lemma_status_codes()
    ensures
        ZclStatus::Success.spec_code() == 0x00u8,
        ZclStatus::Failure.spec_code() == 0x01u8,
        ZclStatus::NotAuthorized.spec_code() == 0x7eu8,
        ZclStatus::ReservedFieldNotZero.spec_code() == 0x7fu8,
        ZclStatus::MalformedCommand.spec_code() == 0x80u8,
        ZclStatus::UnsupClusterCommand.spec_code() == 0x81u8,
        ZclStatus::UnsupGeneralCommand.spec_code() == 0x82u8,
        ZclStatus::UnsupManufClusterCommand.spec_code() == 0x83u8,
        ZclStatus::UnsupManufGeneralCommand.spec_code() == 0x84u8,
        ZclStatus::InvalidField.spec_code() == 0x85u8,
        ZclStatus::UnsupportedAttribute.spec_code() == 0x86u8,
        ZclStatus::InvalidValue.spec_code() == 0x87u8,
        ZclStatus::ReadOnly.spec_code() == 0x88u8,
        ZclStatus::InsufficientSpace.spec_code() == 0x89u8,
        ZclStatus::DuplicateExists.spec_code() == 0x8au8,
        ZclStatus::NotFound.spec_code() == 0x8bu8,
        ZclStatus::UnreportableAttribute.spec_code() == 0x8cu8,
        ZclStatus::InvalidDataType.spec_code() == 0x8du8,
        ZclStatus::InvalidSelector.spec_code() == 0x8eu8,
        ZclStatus::WriteOnly.spec_code() == 0x8fu8,
        ZclStatus::InconsistentStartupState.spec_code() == 0x90u8,
        ZclStatus::DefinedOutOfBand.spec_code() == 0x91u8,
        ZclStatus::Inconsistent.spec_code() == 0x92u8,
        ZclStatus::ActionDenied.spec_code() == 0x93u8,
        ZclStatus::Timeout.spec_code() == 0x94u8,
        ZclStatus::Abort.spec_code() == 0x95u8,
        ZclStatus::InvalidImage.spec_code() == 0x96u8,
        ZclStatus::WaitForData.spec_code() == 0x97u8,
        ZclStatus::NoImageAvailable.spec_code() == 0x98u8,
        ZclStatus::RequireMoreImage.spec_code() == 0x99u8,
        ZclStatus::NotificationPending.spec_code() == 0x9au8,
        ZclStatus::HardwareFailure.spec_code() == 0xc0u8,
        ZclStatus::SoftwareFailure.spec_code() == 0xc1u8,
        ZclStatus::CalibrationError.spec_code() == 0xc2u8,
        ZclStatus::UnsupportedCluster.spec_code() == 0xc3u8,
        ZclStatus::spec_from_code(0x00u8) == Some(ZclStatus::Success),
        ZclStatus::spec_from_code(0x01u8) == Some(ZclStatus::Failure),
        ZclStatus::spec_from_code(0x7eu8) == Some(ZclStatus::NotAuthorized),
        ZclStatus::spec_from_code(0x7fu8) == Some(ZclStatus::ReservedFieldNotZero),
        ZclStatus::spec_from_code(0x80u8) == Some(ZclStatus::MalformedCommand),
        ZclStatus::spec_from_code(0x81u8) == Some(ZclStatus::UnsupClusterCommand),
        ZclStatus::spec_from_code(0x82u8) == Some(ZclStatus::UnsupGeneralCommand),
        ZclStatus::spec_from_code(0x83u8) == Some(ZclStatus::UnsupManufClusterCommand),
        ZclStatus::spec_from_code(0x84u8) == Some(ZclStatus::UnsupManufGeneralCommand),
        ZclStatus::spec_from_code(0x85u8) == Some(ZclStatus::InvalidField),
        ZclStatus::spec_from_code(0x86u8) == Some(ZclStatus::UnsupportedAttribute),
        ZclStatus::spec_from_code(0x87u8) == Some(ZclStatus::InvalidValue),
        ZclStatus::spec_from_code(0x88u8) == Some(ZclStatus::ReadOnly),
        ZclStatus::spec_from_code(0x89u8) == Some(ZclStatus::InsufficientSpace),
        ZclStatus::spec_from_code(0x8au8) == Some(ZclStatus::DuplicateExists),
        ZclStatus::spec_from_code(0x8bu8) == Some(ZclStatus::NotFound),
        ZclStatus::spec_from_code(0x8cu8) == Some(ZclStatus::UnreportableAttribute),
        ZclStatus::spec_from_code(0x8du8) == Some(ZclStatus::InvalidDataType),
        ZclStatus::spec_from_code(0x8eu8) == Some(ZclStatus::InvalidSelector),
        ZclStatus::spec_from_code(0x8fu8) == Some(ZclStatus::WriteOnly),
        ZclStatus::spec_from_code(0x90u8) == Some(ZclStatus::InconsistentStartupState),
        ZclStatus::spec_from_code(0x91u8) == Some(ZclStatus::DefinedOutOfBand),
        ZclStatus::spec_from_code(0x92u8) == Some(ZclStatus::Inconsistent),
        ZclStatus::spec_from_code(0x93u8) == Some(ZclStatus::ActionDenied),
        ZclStatus::spec_from_code(0x94u8) == Some(ZclStatus::Timeout),
        ZclStatus::spec_from_code(0x95u8) == Some(ZclStatus::Abort),
        ZclStatus::spec_from_code(0x96u8) == Some(ZclStatus::InvalidImage),
        ZclStatus::spec_from_code(0x97u8) == Some(ZclStatus::WaitForData),
        ZclStatus::spec_from_code(0x98u8) == Some(ZclStatus::NoImageAvailable),
        ZclStatus::spec_from_code(0x99u8) == Some(ZclStatus::RequireMoreImage),
        ZclStatus::spec_from_code(0x9au8) == Some(ZclStatus::NotificationPending),
        ZclStatus::spec_from_code(0xc0u8) == Some(ZclStatus::HardwareFailure),
        ZclStatus::spec_from_code(0xc1u8) == Some(ZclStatus::SoftwareFailure),
        ZclStatus::spec_from_code(0xc2u8) == Some(ZclStatus::CalibrationError),
        ZclStatus::spec_from_code(0xc3u8) == Some(ZclStatus::UnsupportedCluster),
        forall|v: u8| #[trigger] ZclStatus::spec_from_code(v) matches Some(s) ==> s.spec_code() == v,
{
}

impl Default for ZclStatus {
    fn default() -> (r: Self)
        ensures
            r == ZclStatus::Success,
    {
        ZclStatus::Success
    }
}

/// A field of a time or a date: 0xff on the air stands for "not given".
pub open spec fn field_byte(f: Option<u8>) -> u8 {
    match f {
        Some(v) => v,
        None => 0xff,
    }
}

/// The field a byte stands for.
pub open spec fn byte_field(b: u8) -> Option<u8> {
    if b != 0xff {
        Some(b)
    } else {
        None
    }
}

fn field_to_byte(f: Option<u8>) -> (r: u8)
    ensures
        r == field_byte(f),
{
    match f {
        Some(v) => v,
        None => 0xff,
    }
}

fn byte_to_field(b: u8) -> (r: Option<u8>)
    ensures
        r == byte_field(b),
{
    if b != 0xff {
        Some(b)
    } else {
        None
    }
}

/// A time of day; each field may be left out.
#[derive(Clone, Copy, Debug, PartialEq, Eq, Structural)]
pub struct ZclTime {
    pub hour: Option<u8>,
    pub minute: Option<u8>,
    pub second: Option<u8>,
    pub hundredth: Option<u8>,
}

/// Whether a byte is at most `max` or stands for "not given".
pub open spec fn in_range_or_absent(b: u8, max: u8) -> bool {
    b <= max || b == 0xff
}

impl ZclTime {
    /// The four bytes of a time: hours, minutes, seconds, hundredths.
    pub open spec fn spec_bytes(self) -> Seq<u8> {
        seq![
            field_byte(self.hour),
            field_byte(self.minute),
            field_byte(self.second),
            field_byte(self.hundredth),
        ]
    }

    /// Reads the four bytes of a time at `off`. Hours above 24, minutes or
    /// seconds above 60 and hundredths above 100 (other than 0xff) are
    /// refused.
    pub open spec fn spec_parse(s: Seq<u8>, off: int) -> Result<(ZclTime, int), ParseError> {
        if off < 0 || off + 4 > s.len() {
            Err(ParseError::Incomplete)
        } else if !(in_range_or_absent(s[off], 24) && in_range_or_absent(s[off + 1], 60)
            && in_range_or_absent(s[off + 2], 60) && in_range_or_absent(s[off + 3], 100)) {
            Err(ParseError::BadInput)
        } else {
            Ok(
                (
                    ZclTime {
                        hour: byte_field(s[off]),
                        minute: byte_field(s[off + 1]),
                        second: byte_field(s[off + 2]),
                        hundredth: byte_field(s[off + 3]),
                    },
                    4,
                ),
            )
        }
    }

    /// A time whose fields are in range and not 0xff.
    pub open spec fn spec_wf(self) -> bool {
        &&& (self.hour matches Some(v) ==> v <= 24)
        &&& (self.minute matches Some(v) ==> v <= 60)
        &&& (self.second matches Some(v) ==> v <= 60)
        &&& (self.hundredth matches Some(v) ==> v <= 100)
    }

    pub fn parse(bytes: &[u8], off: usize) -> (r: Result<(ZclTime, usize), ParseError>)
        ensures
            match r {
                Ok((t, n)) => ZclTime::spec_parse(bytes@, off as int) == Ok::<(ZclTime, int), ParseError>((t, n as int)),
                Err(e) => ZclTime::spec_parse(bytes@, off as int) == Err::<(ZclTime, int), ParseError>(e),
            },
    {
        if off > bytes.len() || bytes.len() - off < 4 {
            return Err(ParseError::Incomplete);
        }
        let (h, m, sec, hh) = (bytes[off], bytes[off + 1], bytes[off + 2], bytes[off + 3]);
        if (h > 24 && h != 0xff) || (m > 60 && m != 0xff) || (sec > 60 && sec != 0xff) || (hh > 100
            && hh != 0xff) {
            return Err(ParseError::BadInput);
        }
        Ok(
            (
                ZclTime {
                    hour: byte_to_field(h),
                    minute: byte_to_field(m),
                    second: byte_to_field(sec),
                    hundredth: byte_to_field(hh),
                },
                4,
            ),
        )
    }

    /// Appends the four bytes of the time.
    pub fn serialize(&self, out: &mut std::vec::Vec<u8>)
        ensures
            final(out)@ == old(out)@ + self.spec_bytes(),
    {
        out.push(field_to_byte(self.hour));
        out.push(field_to_byte(self.minute));
        out.push(field_to_byte(self.second));
        out.push(field_to_byte(self.hundredth));
        proof {
            assert(out@ =~= old(out)@ + self.spec_bytes());
        }
    }

    /// A time in range reads back as itself.
    pub proof fn lemma_roundtrip(self, pre: Seq<u8>, post: Seq<u8>)
        requires
            self.spec_wf(),
            self.hour != Some(0xffu8),
            self.minute != Some(0xffu8),
            self.second != Some(0xffu8),
            self.hundredth != Some(0xffu8),
        ensures
            ZclTime::spec_parse(pre + self.spec_bytes() + post, pre.len() as int) == Ok::<(ZclTime, int), ParseError>((self, 4)),
    {
        let s = pre + self.spec_bytes() + post;
        let o = pre.len() as int;
        assert(s[o] == field_byte(self.hour));
        assert(s[o + 1] == field_byte(self.minute));
        assert(s[o + 2] == field_byte(self.second));
        assert(s[o + 3] == field_byte(self.hundredth));
    }
}

/// A date: the year counts from 1900; each field may be left out.
#[derive(Clone, Copy, Debug, PartialEq, Eq, Structural)]
pub struct ZclDate {
    pub year: Option<u8>,
    pub month: Option<u8>,
    pub day: Option<u8>,
    pub weekday: Option<u8>,
}

/// A leap year among 1900 to 2155 (the year byte counts from 1900): those
/// divisible by 4 but 1900 and 2100.
pub open spec fn is_leap_year(year: u8) -> bool {
    year % 4 == 0 && year != 0 && year != 200
}

/// Whether the four date bytes are refused: a month above 12, a day above
/// 31 or a weekday above 7 (0xff stands for "not given" in each); in
/// February, April, June, September or November a day byte above 30, the
/// 0xff of a day not given among them; a given day above 29 in February,
/// or of 29 in the February of a given year that is not a leap year.
pub open spec fn date_refused(year: u8, month: u8, day: u8, weekday: u8) -> bool {
    ||| !in_range_or_absent(month, 12)
    ||| !in_range_or_absent(day, 31)
    ||| !in_range_or_absent(weekday, 7)
    ||| (month == 2 || month == 4 || month == 6 || month == 9 || month == 11) && day > 30
    ||| day != 0xff && month == 2 && day > 29
    ||| day == 29 && month == 2 && year != 0xff && !is_leap_year(year)
}

impl ZclDate {
    /// The four bytes of a date: year, month, day, weekday.
    pub open spec fn spec_bytes(self) -> Seq<u8> {
        seq![
            field_byte(self.year),
            field_byte(self.month),
            field_byte(self.day),
            field_byte(self.weekday),
        ]
    }

    /// Reads the four bytes of a date at `off` (see [`date_refused`]).
    pub open spec fn spec_parse(s: Seq<u8>, off: int) -> Result<(ZclDate, int), ParseError> {
        if off < 0 || off + 4 > s.len() {
            Err(ParseError::Incomplete)
        } else if date_refused(s[off], s[off + 1], s[off + 2], s[off + 3]) {
            Err(ParseError::BadInput)
        } else {
            Ok(
                (
                    ZclDate {
                        year: byte_field(s[off]),
                        month: byte_field(s[off + 1]),
                        day: byte_field(s[off + 2]),
                        weekday: byte_field(s[off + 3]),
                    },
                    4,
                ),
            )
        }
    }

    pub fn parse(bytes: &[u8], off: usize) -> (r: Result<(ZclDate, usize), ParseError>)
        ensures
            match r {
                Ok((t, n)) => ZclDate::spec_parse(bytes@, off as int) == Ok::<(ZclDate, int), ParseError>((t, n as int)),
                Err(e) => ZclDate::spec_parse(bytes@, off as int) == Err::<(ZclDate, int), ParseError>(e),
            },
    {
        if off > bytes.len() || bytes.len() - off < 4 {
            return Err(ParseError::Incomplete);
        }
        let (year, month, day, weekday) = (bytes[off], bytes[off + 1], bytes[off + 2], bytes[off + 3]);
        let leap = year % 4 == 0 && (year != 0 && year != 200);
        if (month > 12 && month != 0xff) || (day > 31 && day != 0xff) || (weekday > 7 && weekday != 0xff)
            || ((month == 2 || month == 4 || month == 6 || month == 9 || month == 11) && day > 30)
            || (day != 0xff && month == 2 && day > 29)
            || (day == 29 && month == 2 && year != 0xff && !leap) {
            return Err(ParseError::BadInput);
        }
        Ok(
            (
                ZclDate {
                    year: byte_to_field(year),
                    month: byte_to_field(month),
                    day: byte_to_field(day),
                    weekday: byte_to_field(weekday),
                },
                4,
            ),
        )
    }

    /// Appends the four bytes of the date.
    pub fn serialize(&self, out: &mut std::vec::Vec<u8>)
        ensures
            final(out)@ == old(out)@ + self.spec_bytes(),
    {
        out.push(field_to_byte(self.year));
        out.push(field_to_byte(self.month));
        out.push(field_to_byte(self.day));
        out.push(field_to_byte(self.weekday));
        proof {
            assert(out@ =~= old(out)@ + self.spec_bytes());
        }
    }
}

/// A value of the cluster library, with its data type. Floating-point
/// values are held as their IEEE 754 bits.
#[derive(Debug, PartialEq)]
pub enum ZclData {
    Null,
    Data8(u8),
    Data16(u16),
    Data24(u32),
    Data32(u32),
    Data40(u64),
    Data48(u64),
    Data56(u64),
    Data64(u64),
    Bool(bool),
    Bitmap8(u8),
    Bitmap16(u16),
    Bitmap24(u32),
    Bitmap32(u32),
    Bitmap40(u64),
    Bitmap48(u64),
    Bitmap56(u64),
    Bitmap64(u64),
    UInt8(u8),
    UInt16(u16),
    UInt24(u32),
    UInt32(u32),
    UInt40(u64),
    UInt48(u64),
    UInt56(u64),
    UInt64(u64),
    Int8(i8),
    Int16(i16),
    Int24(i32),
    Int32(i32),
    Int40(i64),
    Int48(i64),
    Int56(i64),
    Int64(i64),
    Enum8(u8),
    Enum16(u16),
    Float16(u32),
    Float(u32),
    Double(u64),
    OctetString(std::vec::Vec<u8>),
    String(String),
    LongOctetString(std::vec::Vec<u8>),
    LongString(String),
    Array(u16, std::vec::Vec<ZclData>),
    Structure(u16, std::vec::Vec<ZclData>),
    DataSet(u16, std::vec::Vec<ZclData>),
    Bag(u16, std::vec::Vec<ZclData>),
    Time(ZclTime),
    Date(ZclDate),
    Timestamp(u32),
    ClusterId(u16),
    AttributeId(u16),
    BacNetOid(u16),
    IeeeAddress(ExtendedAddress),
    SecurityKey([u8; 16]),
}

/// What a [`ZclData`] holds.
pub ghost enum ZclDataView {
    Null,
    Data8(u8),
    Data16(u16),
    Data24(u32),
    Data32(u32),
    Data40(u64),
    Data48(u64),
    Data56(u64),
    Data64(u64),
    Bool(bool),
    Bitmap8(u8),
    Bitmap16(u16),
    Bitmap24(u32),
    Bitmap32(u32),
    Bitmap40(u64),
    Bitmap48(u64),
    Bitmap56(u64),
    Bitmap64(u64),
    UInt8(u8),
    UInt16(u16),
    UInt24(u32),
    UInt32(u32),
    UInt40(u64),
    UInt48(u64),
    UInt56(u64),
    UInt64(u64),
    Int8(i8),
    Int16(i16),
    Int24(i32),
    Int32(i32),
    Int40(i64),
    Int48(i64),
    Int56(i64),
    Int64(i64),
    Enum8(u8),
    Enum16(u16),
    Float16(u32),
    Float(u32),
    Double(u64),
    OctetString(Seq<u8>),
    String(Seq<char>),
    LongOctetString(Seq<u8>),
    LongString(Seq<char>),
    Array(u16, Seq<ZclDataView>),
    Structure(u16, Seq<ZclDataView>),
    DataSet(u16, Seq<ZclDataView>),
    Bag(u16, Seq<ZclDataView>),
    Time(ZclTime),
    Date(ZclDate),
    Timestamp(u32),
    ClusterId(u16),
    AttributeId(u16),
    BacNetOid(u16),
    IeeeAddress(ExtendedAddress),
    SecurityKey(Seq<u8>),
}

/// The views of a list of values.
pub open spec fn items_view(s: Seq<ZclData>) -> Seq<ZclDataView>
    decreases s,
{
    if s.len() == 0 {
        Seq::empty()
    } else {
        items_view(s.drop_last()).push(s.last().spec_view())
    }
}

impl ZclData {
    pub open spec fn spec_view(&self) -> ZclDataView
        decreases self,
    {
        match self {
            ZclData::Null => ZclDataView::Null,
            ZclData::Data8(x) => ZclDataView::Data8(*x),
            ZclData::Data16(x) => ZclDataView::Data16(*x),
            ZclData::Data24(x) => ZclDataView::Data24(*x),
            ZclData::Data32(x) => ZclDataView::Data32(*x),
            ZclData::Data40(x) => ZclDataView::Data40(*x),
            ZclData::Data48(x) => ZclDataView::Data48(*x),
            ZclData::Data56(x) => ZclDataView::Data56(*x),
            ZclData::Data64(x) => ZclDataView::Data64(*x),
            ZclData::Bool(x) => ZclDataView::Bool(*x),
            ZclData::Bitmap8(x) => ZclDataView::Bitmap8(*x),
            ZclData::Bitmap16(x) => ZclDataView::Bitmap16(*x),
            ZclData::Bitmap24(x) => ZclDataView::Bitmap24(*x),
            ZclData::Bitmap32(x) => ZclDataView::Bitmap32(*x),
            ZclData::Bitmap40(x) => ZclDataView::Bitmap40(*x),
            ZclData::Bitmap48(x) => ZclDataView::Bitmap48(*x),
            ZclData::Bitmap56(x) => ZclDataView::Bitmap56(*x),
            ZclData::Bitmap64(x) => ZclDataView::Bitmap64(*x),
            ZclData::UInt8(x) => ZclDataView::UInt8(*x),
            ZclData::UInt16(x) => ZclDataView::UInt16(*x),
            ZclData::UInt24(x) => ZclDataView::UInt24(*x),
            ZclData::UInt32(x) => ZclDataView::UInt32(*x),
            ZclData::UInt40(x) => ZclDataView::UInt40(*x),
            ZclData::UInt48(x) => ZclDataView::UInt48(*x),
            ZclData::UInt56(x) => ZclDataView::UInt56(*x),
            ZclData::UInt64(x) => ZclDataView::UInt64(*x),
            ZclData::Int8(x) => ZclDataView::Int8(*x),
            ZclData::Int16(x) => ZclDataView::Int16(*x),
            ZclData::Int24(x) => ZclDataView::Int24(*x),
            ZclData::Int32(x) => ZclDataView::Int32(*x),
            ZclData::Int40(x) => ZclDataView::Int40(*x),
            ZclData::Int48(x) => ZclDataView::Int48(*x),
            ZclData::Int56(x) => ZclDataView::Int56(*x),
            ZclData::Int64(x) => ZclDataView::Int64(*x),
            ZclData::Enum8(x) => ZclDataView::Enum8(*x),
            ZclData::Enum16(x) => ZclDataView::Enum16(*x),
            ZclData::Float16(x) => ZclDataView::Float16(*x),
            ZclData::Float(x) => ZclDataView::Float(*x),
            ZclData::Double(x) => ZclDataView::Double(*x),
            ZclData::OctetString(x) => ZclDataView::OctetString(x@),
            ZclData::String(x) => ZclDataView::String(x@),
            ZclData::LongOctetString(x) => ZclDataView::LongOctetString(x@),
            ZclData::LongString(x) => ZclDataView::LongString(x@),
            ZclData::Array(c, x) => ZclDataView::Array(*c, items_view(x@)),
            ZclData::Structure(c, x) => ZclDataView::Structure(*c, items_view(x@)),
            ZclData::DataSet(c, x) => ZclDataView::DataSet(*c, items_view(x@)),
            ZclData::Bag(c, x) => ZclDataView::Bag(*c, items_view(x@)),
            ZclData::Time(x) => ZclDataView::Time(*x),
            ZclData::Date(x) => ZclDataView::Date(*x),
            ZclData::Timestamp(x) => ZclDataView::Timestamp(*x),
            ZclData::ClusterId(x) => ZclDataView::ClusterId(*x),
            ZclData::AttributeId(x) => ZclDataView::AttributeId(*x),
            ZclData::BacNetOid(x) => ZclDataView::BacNetOid(*x),
            ZclData::IeeeAddress(x) => ZclDataView::IeeeAddress(*x),
            ZclData::SecurityKey(x) => ZclDataView::SecurityKey(x@),
        }
    }

    /// The data type's tag on the air.
    pub fn tag(&self) -> (r: u8)
        ensures
            r == self.spec_view().spec_tag(),
    {
        match self {
            ZclData::Null => 0x00,
            ZclData::Data8(..) => 0x08,
            ZclData::Data16(..) => 0x09,
            ZclData::Data24(..) => 0x0a,
            ZclData::Data32(..) => 0x0b,
            ZclData::Data40(..) => 0x0c,
            ZclData::Data48(..) => 0x0d,
            ZclData::Data56(..) => 0x0e,
            ZclData::Data64(..) => 0x0f,
            ZclData::Bool(..) => 0x10,
            ZclData::Bitmap8(..) => 0x18,
            ZclData::Bitmap16(..) => 0x19,
            ZclData::Bitmap24(..) => 0x1a,
            ZclData::Bitmap32(..) => 0x1b,
            ZclData::Bitmap40(..) => 0x1c,
            ZclData::Bitmap48(..) => 0x1d,
            ZclData::Bitmap56(..) => 0x1e,
            ZclData::Bitmap64(..) => 0x1f,
            ZclData::UInt8(..) => 0x20,
            ZclData::UInt16(..) => 0x21,
            ZclData::UInt24(..) => 0x22,
            ZclData::UInt32(..) => 0x23,
            ZclData::UInt40(..) => 0x24,
            ZclData::UInt48(..) => 0x25,
            ZclData::UInt56(..) => 0x26,
            ZclData::UInt64(..) => 0x27,
            ZclData::Int8(..) => 0x28,
            ZclData::Int16(..) => 0x29,
            ZclData::Int24(..) => 0x2a,
            ZclData::Int32(..) => 0x2b,
            ZclData::Int40(..) => 0x2c,
            ZclData::Int48(..) => 0x2d,
            ZclData::Int56(..) => 0x2e,
            ZclData::Int64(..) => 0x2f,
            ZclData::Enum8(..) => 0x30,
            ZclData::Enum16(..) => 0x31,
            ZclData::Float16(..) => 0x38,
            ZclData::Float(..) => 0x39,
            ZclData::Double(..) => 0x3a,
            ZclData::OctetString(..) => 0x41,
            ZclData::String(..) => 0x42,
            ZclData::LongOctetString(..) => 0x43,
            ZclData::LongString(..) => 0x44,
            ZclData::Array(..) => 0x48,
            ZclData::Structure(..) => 0x4c,
            ZclData::DataSet(..) => 0x50,
            ZclData::Bag(..) => 0x51,
            ZclData::Time(..) => 0xe0,
            ZclData::Date(..) => 0xe1,
            ZclData::Timestamp(..) => 0xe2,
            ZclData::ClusterId(..) => 0xe8,
            ZclData::AttributeId(..) => 0xe9,
            ZclData::BacNetOid(..) => 0xea,
            ZclData::IeeeAddress(..) => 0xf0,
            ZclData::SecurityKey(..) => 0xf1,
        }
    }
}

impl ZclDataView {
    /// The data type's tag on the air.
    pub open spec fn spec_tag(self) -> u8 {
        match self {
            ZclDataView::Null => 0x00,
            ZclDataView::Data8(..) => 0x08,
            ZclDataView::Data16(..) => 0x09,
            ZclDataView::Data24(..) => 0x0a,
            ZclDataView::Data32(..) => 0x0b,
            ZclDataView::Data40(..) => 0x0c,
            ZclDataView::Data48(..) => 0x0d,
            ZclDataView::Data56(..) => 0x0e,
            ZclDataView::Data64(..) => 0x0f,
            ZclDataView::Bool(..) => 0x10,
            ZclDataView::Bitmap8(..) => 0x18,
            ZclDataView::Bitmap16(..) => 0x19,
            ZclDataView::Bitmap24(..) => 0x1a,
            ZclDataView::Bitmap32(..) => 0x1b,
            ZclDataView::Bitmap40(..) => 0x1c,
            ZclDataView::Bitmap48(..) => 0x1d,
            ZclDataView::Bitmap56(..) => 0x1e,
            ZclDataView::Bitmap64(..) => 0x1f,
            ZclDataView::UInt8(..) => 0x20,
            ZclDataView::UInt16(..) => 0x21,
            ZclDataView::UInt24(..) => 0x22,
            ZclDataView::UInt32(..) => 0x23,
            ZclDataView::UInt40(..) => 0x24,
            ZclDataView::UInt48(..) => 0x25,
            ZclDataView::UInt56(..) => 0x26,
            ZclDataView::UInt64(..) => 0x27,
            ZclDataView::Int8(..) => 0x28,
            ZclDataView::Int16(..) => 0x29,
            ZclDataView::Int24(..) => 0x2a,
            ZclDataView::Int32(..) => 0x2b,
            ZclDataView::Int40(..) => 0x2c,
            ZclDataView::Int48(..) => 0x2d,
            ZclDataView::Int56(..) => 0x2e,
            ZclDataView::Int64(..) => 0x2f,
            ZclDataView::Enum8(..) => 0x30,
            ZclDataView::Enum16(..) => 0x31,
            ZclDataView::Float16(..) => 0x38,
            ZclDataView::Float(..) => 0x39,
            ZclDataView::Double(..) => 0x3a,
            ZclDataView::OctetString(..) => 0x41,
            ZclDataView::String(..) => 0x42,
            ZclDataView::LongOctetString(..) => 0x43,
            ZclDataView::LongString(..) => 0x44,
            ZclDataView::Array(..) => 0x48,
            ZclDataView::Structure(..) => 0x4c,
            ZclDataView::DataSet(..) => 0x50,
            ZclDataView::Bag(..) => 0x51,
            ZclDataView::Time(..) => 0xe0,
            ZclDataView::Date(..) => 0xe1,
            ZclDataView::Timestamp(..) => 0xe2,
            ZclDataView::ClusterId(..) => 0xe8,
            ZclDataView::AttributeId(..) => 0xe9,
            ZclDataView::BacNetOid(..) => 0xea,
            ZclDataView::IeeeAddress(..) => 0xf0,
            ZclDataView::SecurityKey(..) => 0xf1,
        }
    }

    /// The bytes that follow the tag, at nesting depth `depth`; nothing
    /// where a list lies deeper than 15.
    pub open spec fn spec_payload(self, depth: nat) -> Option<Seq<u8>>
        decreases 2 * (16 - depth), 0int,
    {
        if depth > 15 {
            None
        } else {
            match self {
                ZclDataView::Null => Some(Seq::empty()),
                ZclDataView::Data8(x) => Some(le_bytes(x as nat, 1)),
                ZclDataView::Data16(x) => Some(le_bytes(x as nat, 2)),
                ZclDataView::Data24(x) => Some(le_bytes(x as nat, 3)),
                ZclDataView::Data32(x) => Some(le_bytes(x as nat, 4)),
                ZclDataView::Data40(x) => Some(le_bytes(x as nat, 5)),
                ZclDataView::Data48(x) => Some(le_bytes(x as nat, 6)),
                ZclDataView::Data56(x) => Some(le_bytes(x as nat, 7)),
                ZclDataView::Data64(x) => Some(le_bytes(x as nat, 8)),
                ZclDataView::Bool(x) => Some(seq![if x { 1u8 } else { 0u8 }]),
                ZclDataView::Bitmap8(x) => Some(le_bytes(x as nat, 1)),
                ZclDataView::Bitmap16(x) => Some(le_bytes(x as nat, 2)),
                ZclDataView::Bitmap24(x) => Some(le_bytes(x as nat, 3)),
                ZclDataView::Bitmap32(x) => Some(le_bytes(x as nat, 4)),
                ZclDataView::Bitmap40(x) => Some(le_bytes(x as nat, 5)),
                ZclDataView::Bitmap48(x) => Some(le_bytes(x as nat, 6)),
                ZclDataView::Bitmap56(x) => Some(le_bytes(x as nat, 7)),
                ZclDataView::Bitmap64(x) => Some(le_bytes(x as nat, 8)),
                ZclDataView::UInt8(x) => Some(le_bytes(x as nat, 1)),
                ZclDataView::UInt16(x) => Some(le_bytes(x as nat, 2)),
                ZclDataView::UInt24(x) => Some(le_bytes(x as nat, 3)),
                ZclDataView::UInt32(x) => Some(le_bytes(x as nat, 4)),
                ZclDataView::UInt40(x) => Some(le_bytes(x as nat, 5)),
                ZclDataView::UInt48(x) => Some(le_bytes(x as nat, 6)),
                ZclDataView::UInt56(x) => Some(le_bytes(x as nat, 7)),
                ZclDataView::UInt64(x) => Some(le_bytes(x as nat, 8)),
                ZclDataView::Int8(x) => Some(le_bytes((x as u8) as nat, 1)),
                ZclDataView::Int16(x) => Some(le_bytes((x as u16) as nat, 2)),
                ZclDataView::Int24(x) => Some(le_bytes((x as u32) as nat, 3)),
                ZclDataView::Int32(x) => Some(le_bytes((x as u32) as nat, 4)),
                ZclDataView::Int40(x) => Some(le_bytes((x as u64) as nat, 5)),
                ZclDataView::Int48(x) => Some(le_bytes((x as u64) as nat, 6)),
                ZclDataView::Int56(x) => Some(le_bytes((x as u64) as nat, 7)),
                ZclDataView::Int64(x) => Some(le_bytes((x as u64) as nat, 8)),
                ZclDataView::Enum8(x) => Some(le_bytes(x as nat, 1)),
                ZclDataView::Enum16(x) => Some(le_bytes(x as nat, 2)),
                ZclDataView::Float16(x) => Some(le_bytes(x as nat, 2)),
                ZclDataView::Float(x) => Some(le_bytes(x as nat, 4)),
                ZclDataView::Double(x) => Some(le_bytes(x as nat, 8)),
                ZclDataView::OctetString(x) => Some(seq![x.len() as u8] + x),
                ZclDataView::String(x) => Some(seq![encode_utf8(x).len() as u8] + encode_utf8(x)),
                ZclDataView::LongOctetString(x) => Some(le_bytes((x.len() as u16) as nat, 2) + x),
                ZclDataView::LongString(x) => Some(le_bytes((encode_utf8(x).len() as u16) as nat, 2) + encode_utf8(x)),
                ZclDataView::Array(_, items) => match items_bytes(items, depth + 1) {
                    Some(b) => Some(le_bytes((items.len() as u16) as nat, 2) + b),
                    None => None,
                },
                ZclDataView::Structure(_, items) => match items_bytes(items, depth + 1) {
                    Some(b) => Some(le_bytes((items.len() as u16) as nat, 2) + b),
                    None => None,
                },
                ZclDataView::DataSet(_, items) => match items_bytes(items, depth + 1) {
                    Some(b) => Some(le_bytes((items.len() as u16) as nat, 2) + b),
                    None => None,
                },
                ZclDataView::Bag(_, items) => match items_bytes(items, depth + 1) {
                    Some(b) => Some(le_bytes((items.len() as u16) as nat, 2) + b),
                    None => None,
                },
                ZclDataView::Time(x) => Some(x.spec_bytes()),
                ZclDataView::Date(x) => Some(x.spec_bytes()),
                ZclDataView::Timestamp(x) => Some(le_bytes(x as nat, 4)),
                ZclDataView::ClusterId(x) => Some(le_bytes(x as nat, 2)),
                ZclDataView::AttributeId(x) => Some(le_bytes(x as nat, 2)),
                ZclDataView::BacNetOid(x) => Some(le_bytes(x as nat, 2)),
                ZclDataView::IeeeAddress(x) => Some(le_bytes(x.0 as nat, 8)),
                ZclDataView::SecurityKey(x) => Some(x),
            }
        }
    }

    /// The bytes of the value: its tag, then its payload.
    pub open spec fn spec_bytes(self, depth: nat) -> Option<Seq<u8>> {
        match self.spec_payload(depth) {
            Some(p) => Some(seq![self.spec_tag()] + p),
            None => None,
        }
    }
}

/// The bytes of a list of values, each at `depth`, one after the other.
pub open spec fn items_bytes(items: Seq<ZclDataView>, depth: nat) -> Option<Seq<u8>>
    decreases 2 * (16 - depth) + 1, items.len(),
{
    if depth > 16 {
        None
    } else if items.len() == 0 {
        Some(Seq::empty())
    } else {
        match (items_bytes(items.drop_last(), depth), items.last().spec_payload(depth)) {
            (Some(a), Some(b)) => Some(a + seq![items.last().spec_tag()] + b),
            _ => None,
        }
    }
}

/// What reading a value gives: the value and the bytes it took, an error,
/// or a failure of this stack (it indexes past the end of the input).
pub ghost enum ZclParse {
    Parsed(ZclDataView, int),
    Failed(ParseError),
    Panics,
}

/// What reading a list of values gives (see [`ZclParse`]); the position
/// after the last value.
pub ghost enum ZclItemsParse {
    Parsed(Seq<ZclDataView>, int),
    Failed(ParseError),
    Panics,
}

/// Reads a fixed-size number after the tag at `off`.
pub open spec fn spec_parse_num(s: Seq<u8>, off: int, n: nat) -> Result<nat, ParseError> {
    spec_le_at(s, off + 1, n)
}

/// The tags of the fixed-size numbers.
pub open spec fn is_number_tag(tag: u8) -> bool {
    ||| 0x08 <= tag <= 0x0f
    ||| 0x18 <= tag <= 0x31
    ||| 0x38 <= tag <= 0x3a
    ||| tag == 0xe2
    ||| 0xe8 <= tag <= 0xea
}

/// The tags of the lists.
pub open spec fn is_list_tag(tag: u8) -> bool {
    tag == 0x48 || tag == 0x4c || tag == 0x50 || tag == 0x51
}

/// Reads the fixed-size number whose tag is at `off`.
pub open spec fn spec_parse_number(s: Seq<u8>, off: int) -> ZclParse {
    let tag = s[off];
    if tag == 0x08 {
        match spec_parse_num(s, off, 1) {
            Ok(x) => ZclParse::Parsed(ZclDataView::Data8(x as u8), 2),
            Err(e) => ZclParse::Failed(e),
        }
    }
    else if tag == 0x09 {
        match spec_parse_num(s, off, 2) {
            Ok(x) => ZclParse::Parsed(ZclDataView::Data16(x as u16), 3),
            Err(e) => ZclParse::Failed(e),
        }
    }
    else if tag == 0x0a {
        match spec_parse_num(s, off, 3) {
            Ok(x) => ZclParse::Parsed(ZclDataView::Data24(x as u32), 4),
            Err(e) => ZclParse::Failed(e),
        }
    }
    else if tag == 0x0b {
        match spec_parse_num(s, off, 4) {
            Ok(x) => ZclParse::Parsed(ZclDataView::Data32(x as u32), 5),
            Err(e) => ZclParse::Failed(e),
        }
    }
    else if tag == 0x0c {
        match spec_parse_num(s, off, 5) {
            Ok(x) => ZclParse::Parsed(ZclDataView::Data40(x as u64), 6),
            Err(e) => ZclParse::Failed(e),
        }
    }
    else if tag == 0x0d {
        match spec_parse_num(s, off, 6) {
            Ok(x) => ZclParse::Parsed(ZclDataView::Data48(x as u64), 7),
            Err(e) => ZclParse::Failed(e),
        }
    }
    else if tag == 0x0e {
        match spec_parse_num(s, off, 7) {
            Ok(x) => ZclParse::Parsed(ZclDataView::Data56(x as u64), 8),
            Err(e) => ZclParse::Failed(e),
        }
    }
    else if tag == 0x0f {
        match spec_parse_num(s, off, 8) {
            Ok(x) => ZclParse::Parsed(ZclDataView::Data64(x as u64), 9),
            Err(e) => ZclParse::Failed(e),
        }
    }
    else if tag == 0x18 {
        match spec_parse_num(s, off, 1) {
            Ok(x) => ZclParse::Parsed(ZclDataView::Bitmap8(x as u8), 2),
            Err(e) => ZclParse::Failed(e),
        }
    }
    else if tag == 0x19 {
        match spec_parse_num(s, off, 2) {
            Ok(x) => ZclParse::Parsed(ZclDataView::Bitmap16(x as u16), 3),
            Err(e) => ZclParse::Failed(e),
        }
    }
    else if tag == 0x1a {
        match spec_parse_num(s, off, 3) {
            Ok(x) => ZclParse::Parsed(ZclDataView::Bitmap24(x as u32), 4),
            Err(e) => ZclParse::Failed(e),
        }
    }
    else if tag == 0x1b {
        match spec_parse_num(s, off, 4) {
            Ok(x) => ZclParse::Parsed(ZclDataView::Bitmap32(x as u32), 5),
            Err(e) => ZclParse::Failed(e),
        }
    }
    else if tag == 0x1c {
        match spec_parse_num(s, off, 5) {
            Ok(x) => ZclParse::Parsed(ZclDataView::Bitmap40(x as u64), 6),
            Err(e) => ZclParse::Failed(e),
        }
    }
    else if tag == 0x1d {
        match spec_parse_num(s, off, 6) {
            Ok(x) => ZclParse::Parsed(ZclDataView::Bitmap48(x as u64), 7),
            Err(e) => ZclParse::Failed(e),
        }
    }
    else if tag == 0x1e {
        match spec_parse_num(s, off, 7) {
            Ok(x) => ZclParse::Parsed(ZclDataView::Bitmap56(x as u64), 8),
            Err(e) => ZclParse::Failed(e),
        }
    }
    else if tag == 0x1f {
        match spec_parse_num(s, off, 8) {
            Ok(x) => ZclParse::Parsed(ZclDataView::Bitmap64(x as u64), 9),
            Err(e) => ZclParse::Failed(e),
        }
    }
    else if tag == 0x20 {
        match spec_parse_num(s, off, 1) {
            Ok(x) => ZclParse::Parsed(ZclDataView::UInt8(x as u8), 2),
            Err(e) => ZclParse::Failed(e),
        }
    }
    else if tag == 0x21 {
        match spec_parse_num(s, off, 2) {
            Ok(x) => ZclParse::Parsed(ZclDataView::UInt16(x as u16), 3),
            Err(e) => ZclParse::Failed(e),
        }
    }
    else if tag == 0x22 {
        match spec_parse_num(s, off, 3) {
            Ok(x) => ZclParse::Parsed(ZclDataView::UInt24(x as u32), 4),
            Err(e) => ZclParse::Failed(e),
        }
    }
    else if tag == 0x23 {
        match spec_parse_num(s, off, 4) {
            Ok(x) => ZclParse::Parsed(ZclDataView::UInt32(x as u32), 5),
            Err(e) => ZclParse::Failed(e),
        }
    }
    else if tag == 0x24 {
        match spec_parse_num(s, off, 5) {
            Ok(x) => ZclParse::Parsed(ZclDataView::UInt40(x as u64), 6),
            Err(e) => ZclParse::Failed(e),
        }
    }
    else if tag == 0x25 {
        match spec_parse_num(s, off, 6) {
            Ok(x) => ZclParse::Parsed(ZclDataView::UInt48(x as u64), 7),
            Err(e) => ZclParse::Failed(e),
        }
    }
    else if tag == 0x26 {
        match spec_parse_num(s, off, 7) {
            Ok(x) => ZclParse::Parsed(ZclDataView::UInt56(x as u64), 8),
            Err(e) => ZclParse::Failed(e),
        }
    }
    else if tag == 0x27 {
        match spec_parse_num(s, off, 8) {
            Ok(x) => ZclParse::Parsed(ZclDataView::UInt64(x as u64), 9),
            Err(e) => ZclParse::Failed(e),
        }
    }
    else if tag == 0x28 {
        match spec_parse_num(s, off, 1) {
            Ok(x) => ZclParse::Parsed(ZclDataView::Int8(x as i8), 2),
            Err(e) => ZclParse::Failed(e),
        }
    }
    else if tag == 0x29 {
        match spec_parse_num(s, off, 2) {
            Ok(x) => ZclParse::Parsed(ZclDataView::Int16(x as i16), 3),
            Err(e) => ZclParse::Failed(e),
        }
    }
    else if tag == 0x2a {
        match spec_parse_num(s, off, 3) {
            Ok(x) => ZclParse::Parsed(ZclDataView::Int24(x as i32), 4),
            Err(e) => ZclParse::Failed(e),
        }
    }
    else if tag == 0x2b {
        match spec_parse_num(s, off, 4) {
            Ok(x) => ZclParse::Parsed(ZclDataView::Int32(x as i32), 5),
            Err(e) => ZclParse::Failed(e),
        }
    }
    else if tag == 0x2c {
        match spec_parse_num(s, off, 5) {
            Ok(x) => ZclParse::Parsed(ZclDataView::Int40(x as i64), 6),
            Err(e) => ZclParse::Failed(e),
        }
    }
    else if tag == 0x2d {
        match spec_parse_num(s, off, 6) {
            Ok(x) => ZclParse::Parsed(ZclDataView::Int48(x as i64), 7),
            Err(e) => ZclParse::Failed(e),
        }
    }
    else if tag == 0x2e {
        match spec_parse_num(s, off, 7) {
            Ok(x) => ZclParse::Parsed(ZclDataView::Int56(x as i64), 8),
            Err(e) => ZclParse::Failed(e),
        }
    }
    else if tag == 0x2f {
        match spec_parse_num(s, off, 8) {
            Ok(x) => ZclParse::Parsed(ZclDataView::Int64(x as i64), 9),
            Err(e) => ZclParse::Failed(e),
        }
    }
    else if tag == 0x30 {
        match spec_parse_num(s, off, 1) {
            Ok(x) => ZclParse::Parsed(ZclDataView::Enum8(x as u8), 2),
            Err(e) => ZclParse::Failed(e),
        }
    }
    else if tag == 0x31 {
        match spec_parse_num(s, off, 2) {
            Ok(x) => ZclParse::Parsed(ZclDataView::Enum16(x as u16), 3),
            Err(e) => ZclParse::Failed(e),
        }
    }
    else if tag == 0x38 {
        match spec_parse_num(s, off, 2) {
            Ok(x) => ZclParse::Parsed(ZclDataView::Float16(x as u32), 3),
            Err(e) => ZclParse::Failed(e),
        }
    }
    else if tag == 0x39 {
        match spec_parse_num(s, off, 4) {
            Ok(x) => ZclParse::Parsed(ZclDataView::Float(x as u32), 5),
            Err(e) => ZclParse::Failed(e),
        }
    }
    else if tag == 0x3a {
        match spec_parse_num(s, off, 8) {
            Ok(x) => ZclParse::Parsed(ZclDataView::Double(x as u64), 9),
            Err(e) => ZclParse::Failed(e),
        }
    }
    else if tag == 0xe2 {
        match spec_parse_num(s, off, 4) {
            Ok(x) => ZclParse::Parsed(ZclDataView::Timestamp(x as u32), 5),
            Err(e) => ZclParse::Failed(e),
        }
    }
    else if tag == 0xe8 {
        match spec_parse_num(s, off, 2) {
            Ok(x) => ZclParse::Parsed(ZclDataView::ClusterId(x as u16), 3),
            Err(e) => ZclParse::Failed(e),
        }
    }
    else if tag == 0xe9 {
        match spec_parse_num(s, off, 2) {
            Ok(x) => ZclParse::Parsed(ZclDataView::AttributeId(x as u16), 3),
            Err(e) => ZclParse::Failed(e),
        }
    }
    else if tag == 0xea {
        match spec_parse_num(s, off, 2) {
            Ok(x) => ZclParse::Parsed(ZclDataView::BacNetOid(x as u16), 3),
            Err(e) => ZclParse::Failed(e),
        }
    }
    else {
        ZclParse::Failed(ParseError::BadInput)
    }
}

/// Reads the octet or character string whose tag is at `off`: a length of
/// one byte (0x41, 0x42) or two (0x43, 0x44), then as many bytes. Both
/// character strings give a short string.
pub open spec fn spec_parse_text(s: Seq<u8>, off: int) -> ZclParse {
    let tag = s[off];
    let p = off + 1;
    if tag == 0x41 || tag == 0x42 {
        if p >= s.len() {
            ZclParse::Panics
        } else if s.len() - (p + 1) < s[p] {
            ZclParse::Failed(ParseError::Incomplete)
        } else if tag == 0x41 {
            ZclParse::Parsed(ZclDataView::OctetString(s.subrange(p + 1, p + 1 + s[p])), s[p] + 2)
        } else if !valid_utf8(s.subrange(p + 1, p + 1 + s[p])) {
            ZclParse::Failed(ParseError::BadInput)
        } else {
            ZclParse::Parsed(ZclDataView::String(decode_utf8(s.subrange(p + 1, p + 1 + s[p]))), s[p] + 2)
        }
    } else {
        match spec_u16_at(s, p) {
            Err(e) => ZclParse::Failed(e),
            Ok(len) => if s.len() - (p + 2) < len {
                ZclParse::Failed(ParseError::Incomplete)
            } else if tag == 0x43 {
                ZclParse::Parsed(ZclDataView::LongOctetString(s.subrange(p + 2, p + 2 + len)), len as int + 3)
            } else if !valid_utf8(s.subrange(p + 2, p + 2 + len)) {
                ZclParse::Failed(ParseError::BadInput)
            } else {
                ZclParse::Parsed(ZclDataView::String(decode_utf8(s.subrange(p + 2, p + 2 + len))), len as int + 3)
            },
        }
    }
}

/// The list of the data type `tag` with the count `n`.
pub open spec fn list_view(tag: u8, n: u16, items: Seq<ZclDataView>) -> ZclDataView {
    if tag == 0x48 {
        ZclDataView::Array(n, items)
    } else if tag == 0x4c {
        ZclDataView::Structure(n, items)
    } else if tag == 0x50 {
        ZclDataView::DataSet(n, items)
    } else {
        ZclDataView::Bag(n, items)
    }
}

/// Reads the value whose tag is at `off`, at nesting depth `depth`.
pub open spec fn spec_parse(s: Seq<u8>, off: int, depth: nat) -> ZclParse
    decreases 2 * (16 - depth), 0int,
{
    if depth > 15 {
        ZclParse::Failed(ParseError::BadInput)
    } else if off < 0 || off >= s.len() {
        ZclParse::Panics
    } else {
        let tag = s[off];
        let p = off + 1;
        if tag == 0x00 {
            ZclParse::Parsed(ZclDataView::Null, 1)
        } else if is_number_tag(tag) {
            spec_parse_number(s, off)
        } else if tag == 0x10 {
            if p < s.len() {
                ZclParse::Parsed(ZclDataView::Bool(s[p] != 0), 2)
            } else {
                ZclParse::Failed(ParseError::Incomplete)
            }
        } else if 0x41 <= tag <= 0x44 {
            spec_parse_text(s, off)
        } else if is_list_tag(tag) {
            match spec_u16_at(s, p) {
                Err(e) => ZclParse::Failed(e),
                Ok(n) => match spec_parse_items(s, p + 2, n as nat, depth + 1) {
                    ZclItemsParse::Parsed(items, end) => ZclParse::Parsed(list_view(tag, n, items), end - off),
                    ZclItemsParse::Failed(e) => ZclParse::Failed(e),
                    ZclItemsParse::Panics => ZclParse::Panics,
                },
            }
        } else if tag == 0xe0 {
            match ZclTime::spec_parse(s, p) {
                Ok((t, _)) => ZclParse::Parsed(ZclDataView::Time(t), 5),
                Err(e) => ZclParse::Failed(e),
            }
        } else if tag == 0xe1 {
            match ZclDate::spec_parse(s, p) {
                Ok((d, _)) => ZclParse::Parsed(ZclDataView::Date(d), 5),
                Err(e) => ZclParse::Failed(e),
            }
        } else if tag == 0xf0 {
            match spec_le_at(s, p, 8) {
                Ok(x) => ZclParse::Parsed(ZclDataView::IeeeAddress(ExtendedAddress(x as u64)), 5),
                Err(e) => ZclParse::Failed(e),
            }
        } else if tag == 0xf1 {
            if s.len() - p < 16 {
                ZclParse::Failed(ParseError::Incomplete)
            } else {
                ZclParse::Parsed(ZclDataView::SecurityKey(s.subrange(p, p + 16)), 17)
            }
        } else {
            ZclParse::Failed(ParseError::BadInput)
        }
    }
}

/// Reads `count` values one after the other from `off`, each at `depth`.
pub open spec fn spec_parse_items(s: Seq<u8>, off: int, count: nat, depth: nat) -> ZclItemsParse
    decreases 2 * (16 - depth) + 1, count,
{
    if depth > 16 {
        ZclItemsParse::Failed(ParseError::BadInput)
    } else if count == 0 {
        ZclItemsParse::Parsed(Seq::empty(), off)
    } else {
        match spec_parse(s, off, depth) {
            ZclParse::Parsed(x, len) => match spec_parse_items(s, off + len, (count - 1) as nat, depth) {
                ZclItemsParse::Parsed(rest, end) => ZclItemsParse::Parsed(seq![x] + rest, end),
                ZclItemsParse::Failed(e) => ZclItemsParse::Failed(e),
                ZclItemsParse::Panics => ZclItemsParse::Panics,
            },
            ZclParse::Failed(e) => ZclItemsParse::Failed(e),
            ZclParse::Panics => ZclItemsParse::Panics,
        }
    }
}

/// A list outcome with `pre` read before it.
pub open spec fn items_prepend(pre: Seq<ZclDataView>, r: ZclItemsParse) -> ZclItemsParse {
    match r {
        ZclItemsParse::Parsed(rest, end) => ZclItemsParse::Parsed(pre + rest, end),
        other => other,
    }
}

/// `str::from_utf8` of the standard library: the bytes as text where they
/// are valid UTF-8 (the text is then made of exactly these bytes), nothing
/// otherwise.
#[verifier::external_body]
fn utf8_str(v: &[u8]) -> (r: Option<&str>)
    ensures
        r is Some <==> valid_utf8(v@),
        r matches Some(t) ==> t.spec_bytes() == v@,
{
    match std::str::from_utf8(v) {
        Ok(t) => Some(t),
        Err(_) => None,
    }
}

/// The text that valid UTF-8 bytes make.
fn text_of(v: &[u8]) -> (r: Option<String>)
    ensures
        r is Some <==> valid_utf8(v@),
        r matches Some(t) ==> t@ == decode_utf8(v@),
{
    match utf8_str(v) {
        Some(t) => {
            proof {
                vstd::utf8::encode_utf8_decode_utf8(t@);
            }
            Some(t.to_owned())
        },
        None => None,
    }
}

/// A parse outcome with the failure of this stack on a missing byte (see
/// [`ZclParse::Panics`]) reported as input that is incomplete.
pub open spec fn settle(p: ZclParse) -> ZclParse {
    match p {
        ZclParse::Panics => ZclParse::Failed(ParseError::Incomplete),
        other => other,
    }
}

/// A list outcome settled as [`settle`] does.
pub open spec fn settle_items(p: ZclItemsParse) -> ZclItemsParse {
    match p {
        ZclItemsParse::Panics => ZclItemsParse::Failed(ParseError::Incomplete),
        other => other,
    }
}

/// What [`ZclData::parse`] says of a parse that `r` gave.
pub open spec fn parse_matches(s: Seq<u8>, off: int, r: Result<(ZclData, usize), ParseError>, expected: ZclParse) -> bool {
    &&& r matches Ok((_, n)) ==> 1 <= n && off + n <= s.len()
    &&& match r {
        Ok((d, n)) => expected == ZclParse::Parsed(d.spec_view(), n as int),
        Err(e) => expected == ZclParse::Failed(e),
    }
}

/// Reads the fixed-size number whose tag is at `off`.
fn parse_number(bytes: &[u8], off: usize) -> (r: Result<(ZclData, usize), ParseError>)
    requires
        off < bytes@.len(),
        is_number_tag(bytes@[off as int]),
    ensures
        parse_matches(bytes@, off as int, r, spec_parse_number(bytes@, off as int)),
{
    let blen = bytes.len();
    let tag = bytes[off];
    let p = off + 1;
    match tag {
        0x08 => match le_at(bytes, p, 1) {
            Ok(x) => Ok((ZclData::Data8(x as u8), 2)),
            Err(e) => Err(e),
        },
        0x09 => match le_at(bytes, p, 2) {
            Ok(x) => Ok((ZclData::Data16(x as u16), 3)),
            Err(e) => Err(e),
        },
        0x0a => match le_at(bytes, p, 3) {
            Ok(x) => Ok((ZclData::Data24(x as u32), 4)),
            Err(e) => Err(e),
        },
        0x0b => match le_at(bytes, p, 4) {
            Ok(x) => Ok((ZclData::Data32(x as u32), 5)),
            Err(e) => Err(e),
        },
        0x0c => match le_at(bytes, p, 5) {
            Ok(x) => Ok((ZclData::Data40(x as u64), 6)),
            Err(e) => Err(e),
        },
        0x0d => match le_at(bytes, p, 6) {
            Ok(x) => Ok((ZclData::Data48(x as u64), 7)),
            Err(e) => Err(e),
        },
        0x0e => match le_at(bytes, p, 7) {
            Ok(x) => Ok((ZclData::Data56(x as u64), 8)),
            Err(e) => Err(e),
        },
        0x0f => match le_at(bytes, p, 8) {
            Ok(x) => Ok((ZclData::Data64(x as u64), 9)),
            Err(e) => Err(e),
        },
        0x18 => match le_at(bytes, p, 1) {
            Ok(x) => Ok((ZclData::Bitmap8(x as u8), 2)),
            Err(e) => Err(e),
        },
        0x19 => match le_at(bytes, p, 2) {
            Ok(x) => Ok((ZclData::Bitmap16(x as u16), 3)),
            Err(e) => Err(e),
        },
        0x1a => match le_at(bytes, p, 3) {
            Ok(x) => Ok((ZclData::Bitmap24(x as u32), 4)),
            Err(e) => Err(e),
        },
        0x1b => match le_at(bytes, p, 4) {
            Ok(x) => Ok((ZclData::Bitmap32(x as u32), 5)),
            Err(e) => Err(e),
        },
        0x1c => match le_at(bytes, p, 5) {
            Ok(x) => Ok((ZclData::Bitmap40(x as u64), 6)),
            Err(e) => Err(e),
        },
        0x1d => match le_at(bytes, p, 6) {
            Ok(x) => Ok((ZclData::Bitmap48(x as u64), 7)),
            Err(e) => Err(e),
        },
        0x1e => match le_at(bytes, p, 7) {
            Ok(x) => Ok((ZclData::Bitmap56(x as u64), 8)),
            Err(e) => Err(e),
        },
        0x1f => match le_at(bytes, p, 8) {
            Ok(x) => Ok((ZclData::Bitmap64(x as u64), 9)),
            Err(e) => Err(e),
        },
        0x20 => match le_at(bytes, p, 1) {
            Ok(x) => Ok((ZclData::UInt8(x as u8), 2)),
            Err(e) => Err(e),
        },
        0x21 => match le_at(bytes, p, 2) {
            Ok(x) => Ok((ZclData::UInt16(x as u16), 3)),
            Err(e) => Err(e),
        },
        0x22 => match le_at(bytes, p, 3) {
            Ok(x) => Ok((ZclData::UInt24(x as u32), 4)),
            Err(e) => Err(e),
        },
        0x23 => match le_at(bytes, p, 4) {
            Ok(x) => Ok((ZclData::UInt32(x as u32), 5)),
            Err(e) => Err(e),
        },
        0x24 => match le_at(bytes, p, 5) {
            Ok(x) => Ok((ZclData::UInt40(x as u64), 6)),
            Err(e) => Err(e),
        },
        0x25 => match le_at(bytes, p, 6) {
            Ok(x) => Ok((ZclData::UInt48(x as u64), 7)),
            Err(e) => Err(e),
        },
        0x26 => match le_at(bytes, p, 7) {
            Ok(x) => Ok((ZclData::UInt56(x as u64), 8)),
            Err(e) => Err(e),
        },
        0x27 => match le_at(bytes, p, 8) {
            Ok(x) => Ok((ZclData::UInt64(x as u64), 9)),
            Err(e) => Err(e),
        },
        0x28 => match le_at(bytes, p, 1) {
            Ok(x) => Ok((ZclData::Int8(x as i8), 2)),
            Err(e) => Err(e),
        },
        0x29 => match le_at(bytes, p, 2) {
            Ok(x) => Ok((ZclData::Int16(x as i16), 3)),
            Err(e) => Err(e),
        },
        0x2a => match le_at(bytes, p, 3) {
            Ok(x) => Ok((ZclData::Int24(x as i32), 4)),
            Err(e) => Err(e),
        },
        0x2b => match le_at(bytes, p, 4) {
            Ok(x) => Ok((ZclData::Int32(x as i32), 5)),
            Err(e) => Err(e),
        },
        0x2c => match le_at(bytes, p, 5) {
            Ok(x) => Ok((ZclData::Int40(x as i64), 6)),
            Err(e) => Err(e),
        },
        0x2d => match le_at(bytes, p, 6) {
            Ok(x) => Ok((ZclData::Int48(x as i64), 7)),
            Err(e) => Err(e),
        },
        0x2e => match le_at(bytes, p, 7) {
            Ok(x) => Ok((ZclData::Int56(x as i64), 8)),
            Err(e) => Err(e),
        },
        0x2f => match le_at(bytes, p, 8) {
            Ok(x) => Ok((ZclData::Int64(x as i64), 9)),
            Err(e) => Err(e),
        },
        0x30 => match le_at(bytes, p, 1) {
            Ok(x) => Ok((ZclData::Enum8(x as u8), 2)),
            Err(e) => Err(e),
        },
        0x31 => match le_at(bytes, p, 2) {
            Ok(x) => Ok((ZclData::Enum16(x as u16), 3)),
            Err(e) => Err(e),
        },
        0x38 => match le_at(bytes, p, 2) {
            Ok(x) => Ok((ZclData::Float16(x as u32), 3)),
            Err(e) => Err(e),
        },
        0x39 => match le_at(bytes, p, 4) {
            Ok(x) => Ok((ZclData::Float(x as u32), 5)),
            Err(e) => Err(e),
        },
        0x3a => match le_at(bytes, p, 8) {
            Ok(x) => Ok((ZclData::Double(x as u64), 9)),
            Err(e) => Err(e),
        },
        0xe2 => match le_at(bytes, p, 4) {
            Ok(x) => Ok((ZclData::Timestamp(x as u32), 5)),
            Err(e) => Err(e),
        },
        0xe8 => match le_at(bytes, p, 2) {
            Ok(x) => Ok((ZclData::ClusterId(x as u16), 3)),
            Err(e) => Err(e),
        },
        0xe9 => match le_at(bytes, p, 2) {
            Ok(x) => Ok((ZclData::AttributeId(x as u16), 3)),
            Err(e) => Err(e),
        },
        0xea => match le_at(bytes, p, 2) {
            Ok(x) => Ok((ZclData::BacNetOid(x as u16), 3)),
            Err(e) => Err(e),
        },
        _ => Err(ParseError::BadInput),
    }
}

/// Reads the octet or character string whose tag is at `off` (see
/// [`spec_parse_text`]).
fn parse_text(bytes: &[u8], off: usize) -> (r: Result<(ZclData, usize), ParseError>)
    requires
        off < bytes@.len(),
        0x41 <= bytes@[off as int] <= 0x44,
        !(spec_parse_text(bytes@, off as int) is Panics),
    ensures
        parse_matches(bytes@, off as int, r, spec_parse_text(bytes@, off as int)),
{
    let blen = bytes.len();
    let tag = bytes[off];
    let p = off + 1;
    if tag == 0x41 || tag == 0x42 {
        let len = bytes[p] as usize;
        if blen - (p + 1) < len {
            Err(ParseError::Incomplete)
        } else if tag == 0x41 {
            Ok((ZclData::OctetString(copy_range(bytes, p + 1, p + 1 + len)), len + 2))
        } else {
            match text_of(slice_subrange(bytes, p + 1, p + 1 + len)) {
                Some(t) => Ok((ZclData::String(t), len + 2)),
                None => Err(ParseError::BadInput),
            }
        }
    } else {
        match u16_at(bytes, p) {
            Err(e) => Err(e),
            Ok(l) => {
                let len = l as usize;
                if blen - (p + 2) < len {
                    Err(ParseError::Incomplete)
                } else if tag == 0x43 {
                    Ok((ZclData::LongOctetString(copy_range(bytes, p + 2, p + 2 + len)), len + 3))
                } else {
                    match text_of(slice_subrange(bytes, p + 2, p + 2 + len)) {
                        Some(t) => Ok((ZclData::String(t), len + 3)),
                        None => Err(ParseError::BadInput),
                    }
                }
            },
        }
    }
}

impl ZclData {
    /// Reads the value whose tag is at `off`, at nesting depth `depth`
    /// (see [`spec_parse`]); a missing tag or string length, on which the
    /// stack used to fail, is incomplete input.
    pub fn parse(bytes: &[u8], off: usize, depth: u8) -> (r: Result<(ZclData, usize), ParseError>)
        ensures
            parse_matches(bytes@, off as int, r, settle(spec_parse(bytes@, off as int, depth as nat))),
        decreases 2 * (16 - depth), 0int,
    {
        if depth > 15 {
            return Err(ParseError::BadInput);
        }
        let blen = bytes.len();
        if off >= blen {
            return Err(ParseError::Incomplete);
        }
        let tag = bytes[off];
        let p = off + 1;
        if (tag == 0x41 || tag == 0x42) && p >= blen {
            return Err(ParseError::Incomplete);
        }
        if tag == 0x00 {
            Ok((ZclData::Null, 1))
        } else if (0x08 <= tag && tag <= 0x0f) || (0x18 <= tag && tag <= 0x31) || (0x38 <= tag && tag <= 0x3a) || tag == 0xe2 || (0xe8 <= tag && tag <= 0xea) {
            parse_number(bytes, off)
        } else if tag == 0x10 {
            if p < blen {
                Ok((ZclData::Bool(bytes[p] != 0), 2))
            } else {
                Err(ParseError::Incomplete)
            }
        } else if 0x41 <= tag && tag <= 0x44 {
            parse_text(bytes, off)
        } else if tag == 0x48 || tag == 0x4c || tag == 0x50 || tag == 0x51 {
            match u16_at(bytes, p) {
                Err(e) => Err(e),
                Ok(count) => match ZclData::parse_items(bytes, p + 2, count, depth + 1) {
                    Ok((items, end)) => {
                        let d = if tag == 0x48 {
                            ZclData::Array(count, items)
                        } else if tag == 0x4c {
                            ZclData::Structure(count, items)
                        } else if tag == 0x50 {
                            ZclData::DataSet(count, items)
                        } else {
                            ZclData::Bag(count, items)
                        };
                        Ok((d, end - off))
                    },
                    Err(e) => Err(e),
                },
            }
        } else if tag == 0xe0 {
            match ZclTime::parse(bytes, p) {
                Ok((t, _)) => Ok((ZclData::Time(t), 5)),
                Err(e) => Err(e),
            }
        } else if tag == 0xe1 {
            match ZclDate::parse(bytes, p) {
                Ok((d, _)) => Ok((ZclData::Date(d), 5)),
                Err(e) => Err(e),
            }
        } else if tag == 0xf0 {
            match le_at(bytes, p, 8) {
                Ok(x) => Ok((ZclData::IeeeAddress(ExtendedAddress(x)), 5)),
                Err(e) => Err(e),
            }
        } else if tag == 0xf1 {
            if blen - p < 16 {
                Err(ParseError::Incomplete)
            } else {
                let key: [u8; 16] = [
                    bytes[p], bytes[p + 1], bytes[p + 2], bytes[p + 3], bytes[p + 4], bytes[p + 5],
                    bytes[p + 6], bytes[p + 7], bytes[p + 8], bytes[p + 9], bytes[p + 10],
                    bytes[p + 11], bytes[p + 12], bytes[p + 13], bytes[p + 14], bytes[p + 15],
                ];
                proof {
                    assert(key@ =~= bytes@.subrange(p as int, p + 16));
                }
                Ok((ZclData::SecurityKey(key), 17))
            }
        } else {
            Err(ParseError::BadInput)
        }
    }

    /// Reads `count` values one after the other from `off`, each at
    /// `depth` (see [`spec_parse_items`]); gives them and the position after
    /// the last.
    pub fn parse_items(bytes: &[u8], off: usize, count: u16, depth: u8) -> (r: Result<(std::vec::Vec<ZclData>, usize), ParseError>)
        requires
            depth <= 16,
            off <= bytes@.len(),
        ensures
            r matches Ok((_, end)) ==> off <= end <= bytes@.len(),
            match r {
                Ok((items, end)) => spec_parse_items(bytes@, off as int, count as nat, depth as nat)
                    == ZclItemsParse::Parsed(items_view(items@), end as int),
                Err(e) => settle_items(spec_parse_items(bytes@, off as int, count as nat, depth as nat))
                    == ZclItemsParse::Failed(e),
            },
        decreases 2 * (16 - depth) + 1, count,
    {
        let ghost s = bytes@;
        let blen = bytes.len();
        let ghost whole = spec_parse_items(s, off as int, count as nat, depth as nat);
        let mut acc: std::vec::Vec<ZclData> = std::vec::Vec::new();
        let mut cur = off;
        let mut i: u16 = 0;
        proof {
            assert(items_view(acc@) =~= Seq::<ZclDataView>::empty());
            match spec_parse_items(s, off as int, count as nat, depth as nat) {
                ZclItemsParse::Parsed(rest, end) => {
                    assert(Seq::<ZclDataView>::empty() + rest =~= rest);
                },
                _ => {},
            }
        }
        while i < count
            invariant
                s == bytes@,
                blen == s.len(),
                depth <= 16,
                i <= count,
                whole == spec_parse_items(s, off as int, count as nat, depth as nat),
                whole == items_prepend(items_view(acc@), spec_parse_items(s, cur as int, (count - i) as nat, depth as nat)),
                off <= cur <= s.len(),
            decreases count - i,
        {
            match ZclData::parse(bytes, cur, depth) {
                Ok((x, len)) => {
                    let ghost before = acc@;
                    acc.push(x);
                    proof {
                        assert(acc@.drop_last() =~= before);
                        match spec_parse_items(s, cur + len, (count - i - 1) as nat, depth as nat) {
                            ZclItemsParse::Parsed(rest, end) => {
                                assert(items_view(before) + (seq![x.spec_view()] + rest) =~= items_view(acc@) + rest);
                            },
                            _ => {},
                        }
                    }
                    cur = cur + len;
                    i = i + 1;
                },
                Err(e) => {
                    return Err(e);
                },
            }
        }
        Ok((acc, cur))
    }
}

/// Whether `out` starts with `pre`.
pub open spec fn starts_with(out: Seq<u8>, pre: Seq<u8>) -> bool {
    pre.len() <= out.len() && out.subrange(0, pre.len() as int) == pre
}

impl ZclData {
    /// Writes the value's bytes (see [`ZclDataView::spec_bytes`]) at the
    /// start of the fixed buffer `buf`; gives how many bytes they take. A
    /// list deeper than 15 is refused with `BadInput`, bytes that do not fit
    /// with `Incomplete`; `buf` is then left as it was.
    pub fn try_write(&self, buf: &mut [u8], depth: u8) -> (r: Result<usize, ParseError>)
        ensures
            match self.spec_view().spec_bytes(depth as nat) {
                Some(b) => if b.len() <= old(buf)@.len() {
                    &&& r == Ok::<usize, ParseError>(b.len() as usize)
                    &&& final(buf)@ == b + old(buf)@.subrange(b.len() as int, old(buf)@.len() as int)
                } else {
                    &&& r == Err::<usize, ParseError>(ParseError::Incomplete)
                    &&& final(buf)@ == old(buf)@
                },
                None => r == Err::<usize, ParseError>(ParseError::BadInput) && final(buf)@ == old(buf)@,
            },
    {
        let mut tmp: std::vec::Vec<u8> = std::vec::Vec::new();
        match self.serialize(&mut tmp, depth) {
            Ok(()) => {},
            Err(e) => return Err(e),
        }
        proof {
            assert(tmp@ =~= self.spec_view().spec_bytes(depth as nat)->Some_0);
        }
        let n = tmp.len();
        if n > buf.len() {
            return Err(ParseError::Incomplete);
        }
        let ghost start = buf@;
        let mut i: usize = 0;
        while i < n
            invariant
                n == tmp@.len(),
                n <= buf@.len(),
                buf@.len() == start.len(),
                i <= n,
                forall|j: int| 0 <= j < i ==> buf@[j] == tmp@[j],
                forall|j: int| i <= j < buf@.len() ==> buf@[j] == start[j],
            decreases n - i,
        {
            buf[i] = tmp[i];
            i = i + 1;
        }
        proof {
            assert(buf@ =~= tmp@ + start.subrange(n as int, start.len() as int));
        }
        Ok(n)
    }
}

impl ZclData {
    /// Appends the value's bytes (see [`ZclDataView::spec_bytes`]), at
    /// nesting depth `depth`. A list deeper than 15 is refused; what was
    /// appended before the refusal stays.
    pub fn serialize(&self, out: &mut std::vec::Vec<u8>, depth: u8) -> (r: Result<(), ParseError>)
        ensures
            r is Ok <==> self.spec_view().spec_bytes(depth as nat) is Some,
            r is Ok ==> final(out)@ == old(out)@ + self.spec_view().spec_bytes(depth as nat)->Some_0,
            r is Err ==> r == Err::<(), ParseError>(ParseError::BadInput) && starts_with(final(out)@, old(out)@),
        decreases 16 - depth,
    {
        if depth > 15 {
            proof {
                assert(out@.subrange(0, out@.len() as int) =~= out@);
            }
            return Err(ParseError::BadInput);
        }
        let ghost start = out@;
        out.push(self.tag());
        proof {
            assert(out@.subrange(0, start.len() as int) =~= start);
        }
        match self {
            ZclData::Null => {},
            ZclData::Data8(x) => write_le(out, *x as u64, 1),
            ZclData::Data16(x) => write_le(out, *x as u64, 2),
            ZclData::Data24(x) => write_le(out, *x as u64, 3),
            ZclData::Data32(x) => write_le(out, *x as u64, 4),
            ZclData::Data40(x) => write_le(out, *x as u64, 5),
            ZclData::Data48(x) => write_le(out, *x as u64, 6),
            ZclData::Data56(x) => write_le(out, *x as u64, 7),
            ZclData::Data64(x) => write_le(out, *x as u64, 8),
            ZclData::Bool(x) => out.push(if *x { 1 } else { 0 }),
            ZclData::Bitmap8(x) => write_le(out, *x as u64, 1),
            ZclData::Bitmap16(x) => write_le(out, *x as u64, 2),
            ZclData::Bitmap24(x) => write_le(out, *x as u64, 3),
            ZclData::Bitmap32(x) => write_le(out, *x as u64, 4),
            ZclData::Bitmap40(x) => write_le(out, *x as u64, 5),
            ZclData::Bitmap48(x) => write_le(out, *x as u64, 6),
            ZclData::Bitmap56(x) => write_le(out, *x as u64, 7),
            ZclData::Bitmap64(x) => write_le(out, *x as u64, 8),
            ZclData::UInt8(x) => write_le(out, *x as u64, 1),
            ZclData::UInt16(x) => write_le(out, *x as u64, 2),
            ZclData::UInt24(x) => write_le(out, *x as u64, 3),
            ZclData::UInt32(x) => write_le(out, *x as u64, 4),
            ZclData::UInt40(x) => write_le(out, *x as u64, 5),
            ZclData::UInt48(x) => write_le(out, *x as u64, 6),
            ZclData::UInt56(x) => write_le(out, *x as u64, 7),
            ZclData::UInt64(x) => write_le(out, *x as u64, 8),
            ZclData::Int8(x) => write_le(out, (*x as u8) as u64, 1),
            ZclData::Int16(x) => write_le(out, (*x as u16) as u64, 2),
            ZclData::Int24(x) => write_le(out, (*x as u32) as u64, 3),
            ZclData::Int32(x) => write_le(out, (*x as u32) as u64, 4),
            ZclData::Int40(x) => write_le(out, (*x as u64) as u64, 5),
            ZclData::Int48(x) => write_le(out, (*x as u64) as u64, 6),
            ZclData::Int56(x) => write_le(out, (*x as u64) as u64, 7),
            ZclData::Int64(x) => write_le(out, (*x as u64) as u64, 8),
            ZclData::Enum8(x) => write_le(out, *x as u64, 1),
            ZclData::Enum16(x) => write_le(out, *x as u64, 2),
            ZclData::Float16(x) => write_le(out, *x as u64, 2),
            ZclData::Float(x) => write_le(out, *x as u64, 4),
            ZclData::Double(x) => write_le(out, *x as u64, 8),
            ZclData::OctetString(x) => {
                out.push(x.len() as u8);
                write_slice(out, x.as_slice());
            },
            ZclData::String(x) => {
                let b = x.as_str().as_bytes();
                out.push(b.len() as u8);
                write_slice(out, b);
            },
            ZclData::LongOctetString(x) => {
                write_le(out, (x.len() as u16) as u64, 2);
                write_slice(out, x.as_slice());
            },
            ZclData::LongString(x) => {
                let b = x.as_str().as_bytes();
                write_le(out, (b.len() as u16) as u64, 2);
                write_slice(out, b);
            },
            ZclData::Array(_, items) => {
                let res = ZclData::serialize_items(items, out, depth, Ghost(start));
                proof {
                    let v = self.spec_view();
                    assert(v.spec_tag() == 0x48);
                    assert(v.spec_payload(depth as nat) == match items_bytes(items_view(items@), depth as nat + 1) {
                        Some(b) => Some(le_bytes((items_view(items@).len() as u16) as nat, 2) + b),
                        None => None,
                    });
                    lemma_items_view_subrange(items@, 0);
                    if res is Ok {
                        assert(out@ =~= start + v.spec_bytes(depth as nat)->Some_0);
                    }
                }
                return res;
            },
            ZclData::Structure(_, items) => {
                let res = ZclData::serialize_items(items, out, depth, Ghost(start));
                proof {
                    let v = self.spec_view();
                    assert(v.spec_tag() == 0x4c);
                    assert(v.spec_payload(depth as nat) == match items_bytes(items_view(items@), depth as nat + 1) {
                        Some(b) => Some(le_bytes((items_view(items@).len() as u16) as nat, 2) + b),
                        None => None,
                    });
                    lemma_items_view_subrange(items@, 0);
                    if res is Ok {
                        assert(out@ =~= start + v.spec_bytes(depth as nat)->Some_0);
                    }
                }
                return res;
            },
            ZclData::DataSet(_, items) => {
                let res = ZclData::serialize_items(items, out, depth, Ghost(start));
                proof {
                    let v = self.spec_view();
                    assert(v.spec_tag() == 0x50);
                    assert(v.spec_payload(depth as nat) == match items_bytes(items_view(items@), depth as nat + 1) {
                        Some(b) => Some(le_bytes((items_view(items@).len() as u16) as nat, 2) + b),
                        None => None,
                    });
                    lemma_items_view_subrange(items@, 0);
                    if res is Ok {
                        assert(out@ =~= start + v.spec_bytes(depth as nat)->Some_0);
                    }
                }
                return res;
            },
            ZclData::Bag(_, items) => {
                let res = ZclData::serialize_items(items, out, depth, Ghost(start));
                proof {
                    let v = self.spec_view();
                    assert(v.spec_tag() == 0x51);
                    assert(v.spec_payload(depth as nat) == match items_bytes(items_view(items@), depth as nat + 1) {
                        Some(b) => Some(le_bytes((items_view(items@).len() as u16) as nat, 2) + b),
                        None => None,
                    });
                    lemma_items_view_subrange(items@, 0);
                    if res is Ok {
                        assert(out@ =~= start + v.spec_bytes(depth as nat)->Some_0);
                    }
                }
                return res;
            },
            ZclData::Time(x) => x.serialize(out),
            ZclData::Date(x) => x.serialize(out),
            ZclData::Timestamp(x) => write_le(out, *x as u64, 4),
            ZclData::ClusterId(x) => write_le(out, *x as u64, 2),
            ZclData::AttributeId(x) => write_le(out, *x as u64, 2),
            ZclData::BacNetOid(x) => write_le(out, *x as u64, 2),
            ZclData::IeeeAddress(x) => write_le(out, x.0, 8),
            ZclData::SecurityKey(x) => write_slice(out, x.as_slice()),
        }
        proof {
            assert(out@ =~= start + self.spec_view().spec_bytes(depth as nat)->Some_0);
        }
        Ok(())
    }

    /// Appends a list's count and items, after its tag that `out` ends with.
    fn serialize_items(items: &std::vec::Vec<ZclData>, out: &mut std::vec::Vec<u8>, depth: u8, Ghost(start): Ghost<Seq<u8>>) -> (r: Result<(), ParseError>)
        requires
            depth <= 15,
            old(out)@.len() == start.len() + 1,
            old(out)@.subrange(0, start.len() as int) == start,
        ensures
            r is Ok <==> items_bytes(items_view(items@), depth as nat + 1) is Some,
            r is Ok ==> final(out)@ == old(out)@ + le_bytes((items@.len() as u16) as nat, 2) + items_bytes(items_view(items@), depth as nat + 1)->Some_0,
            r is Err ==> r == Err::<(), ParseError>(ParseError::BadInput) && starts_with(final(out)@, start),
        decreases 16 - depth, 0int,
    {
        let n = items.len();
        let ghost mid = out@;
        write_le(out, (n as u16) as u64, 2);
        let ghost head = out@;
        let mut i: usize = 0;
        proof {
            assert(items@.subrange(0, 0) =~= Seq::<ZclData>::empty());
            assert(items_view(items@.subrange(0, 0)) =~= Seq::<ZclDataView>::empty());
            assert(head + Seq::<u8>::empty() =~= head);
        }
        while i < n
            invariant
                n == items@.len(),
                i <= n,
                depth <= 15,
                mid.len() == start.len() + 1,
                mid.subrange(0, start.len() as int) == start,
                head.len() >= mid.len(),
                head.subrange(0, mid.len() as int) == mid,
                items_bytes(items_view(items@.subrange(0, i as int)), depth as nat + 1) is Some,
                out@ == head + items_bytes(items_view(items@.subrange(0, i as int)), depth as nat + 1)->Some_0,
            decreases n - i,
        {
            let ghost before = out@;
            let res = items[i].serialize(out, depth + 1);
            let ghost pre = items@.subrange(0, i as int);
            let ghost next = items@.subrange(0, i + 1);
            proof {
                assert(next.drop_last() =~= pre);
                assert(items_view(next) == items_view(pre).push(items@[i as int].spec_view()));
                assert(items_view(next).drop_last() =~= items_view(pre));
            }
            match res {
                Ok(()) => {
                    proof {
                        assert(out@ =~= head + items_bytes(items_view(next), depth as nat + 1)->Some_0);
                    }
                },
                Err(e) => {
                    proof {
                        assert(items_bytes(items_view(next), depth as nat + 1) is None);
                        assert(starts_with(out@, start)) by {
                            assert(out@.subrange(0, start.len() as int) =~= before.subrange(0, start.len() as int));
                            assert(before.subrange(0, start.len() as int) =~= head.subrange(0, start.len() as int));
                            assert(head.subrange(0, start.len() as int) =~= mid.subrange(0, start.len() as int));
                        }
                        lemma_items_view_subrange(items@, i as int + 1);
                        assert(items_view(items@).subrange(0, i + 1) == items_view(next));
                        lemma_items_bytes_prefix_none(items_view(items@), i as int + 1, depth as nat + 1);
                    }
                    return Err(e);
                },
            }
            i = i + 1;
        }
        proof {
            assert(items@.subrange(0, n as int) =~= items@);
            assert(out@ =~= mid + le_bytes((items@.len() as u16) as nat, 2) + items_bytes(items_view(items@), depth as nat + 1)->Some_0);
        }
        Ok(())
    }
}

/// The views of a prefix of a list are the prefix of the views.
pub proof fn lemma_items_view_subrange(s: Seq<ZclData>, k: int)
    requires
        0 <= k <= s.len(),
    ensures
        items_view(s.subrange(0, k)) == items_view(s).subrange(0, k),
        items_view(s).len() == s.len(),
    decreases s.len(),
{
    if s.len() == 0 {
        assert(items_view(s.subrange(0, k)) =~= items_view(s).subrange(0, k));
    } else if k == s.len() {
        assert(s.subrange(0, k) =~= s);
        lemma_items_view_subrange(s.drop_last(), 0);
        assert(items_view(s).subrange(0, k) =~= items_view(s));
    } else {
        lemma_items_view_subrange(s.drop_last(), k);
        assert(s.drop_last().subrange(0, k) =~= s.subrange(0, k));
        assert(items_view(s).subrange(0, k) =~= items_view(s.drop_last()).subrange(0, k));
    }
}

/// Where the bytes of a prefix of a list cannot be written, those of the
/// list cannot either.
pub proof fn lemma_items_bytes_prefix_none(items: Seq<ZclDataView>, k: int, depth: nat)
    requires
        0 <= k <= items.len(),
        items_bytes(items.subrange(0, k), depth) is None,
    ensures
        items_bytes(items, depth) is None,
    decreases items.len(),
{
    if k < items.len() {
        assert(items.drop_last().subrange(0, k) =~= items.subrange(0, k));
        lemma_items_bytes_prefix_none(items.drop_last(), k, depth);
    } else {
        assert(items.subrange(0, k) =~= items);
    }
}

impl ZclData {
    /// A copy of the value.
    pub fn duplicate(&self) -> (r: ZclData)
        ensures
            r.spec_view() == self.spec_view(),
        decreases self,
    {
        match self {
            ZclData::Null => ZclData::Null,
            ZclData::Data8(x) => ZclData::Data8(*x),
            ZclData::Data16(x) => ZclData::Data16(*x),
            ZclData::Data24(x) => ZclData::Data24(*x),
            ZclData::Data32(x) => ZclData::Data32(*x),
            ZclData::Data40(x) => ZclData::Data40(*x),
            ZclData::Data48(x) => ZclData::Data48(*x),
            ZclData::Data56(x) => ZclData::Data56(*x),
            ZclData::Data64(x) => ZclData::Data64(*x),
            ZclData::Bool(x) => ZclData::Bool(*x),
            ZclData::Bitmap8(x) => ZclData::Bitmap8(*x),
            ZclData::Bitmap16(x) => ZclData::Bitmap16(*x),
            ZclData::Bitmap24(x) => ZclData::Bitmap24(*x),
            ZclData::Bitmap32(x) => ZclData::Bitmap32(*x),
            ZclData::Bitmap40(x) => ZclData::Bitmap40(*x),
            ZclData::Bitmap48(x) => ZclData::Bitmap48(*x),
            ZclData::Bitmap56(x) => ZclData::Bitmap56(*x),
            ZclData::Bitmap64(x) => ZclData::Bitmap64(*x),
            ZclData::UInt8(x) => ZclData::UInt8(*x),
            ZclData::UInt16(x) => ZclData::UInt16(*x),
            ZclData::UInt24(x) => ZclData::UInt24(*x),
            ZclData::UInt32(x) => ZclData::UInt32(*x),
            ZclData::UInt40(x) => ZclData::UInt40(*x),
            ZclData::UInt48(x) => ZclData::UInt48(*x),
            ZclData::UInt56(x) => ZclData::UInt56(*x),
            ZclData::UInt64(x) => ZclData::UInt64(*x),
            ZclData::Int8(x) => ZclData::Int8(*x),
            ZclData::Int16(x) => ZclData::Int16(*x),
            ZclData::Int24(x) => ZclData::Int24(*x),
            ZclData::Int32(x) => ZclData::Int32(*x),
            ZclData::Int40(x) => ZclData::Int40(*x),
            ZclData::Int48(x) => ZclData::Int48(*x),
            ZclData::Int56(x) => ZclData::Int56(*x),
            ZclData::Int64(x) => ZclData::Int64(*x),
            ZclData::Enum8(x) => ZclData::Enum8(*x),
            ZclData::Enum16(x) => ZclData::Enum16(*x),
            ZclData::Float16(x) => ZclData::Float16(*x),
            ZclData::Float(x) => ZclData::Float(*x),
            ZclData::Double(x) => ZclData::Double(*x),
            ZclData::OctetString(x) => {
                let c = copy_range(x.as_slice(), 0, x.len());
                proof {
                    assert(x@.subrange(0, x@.len() as int) =~= x@);
                }
                ZclData::OctetString(c)
            },
            ZclData::String(x) => ZclData::String(x.clone()),
            ZclData::LongOctetString(x) => {
                let c = copy_range(x.as_slice(), 0, x.len());
                proof {
                    assert(x@.subrange(0, x@.len() as int) =~= x@);
                }
                ZclData::LongOctetString(c)
            },
            ZclData::LongString(x) => ZclData::LongString(x.clone()),
            ZclData::Array(c, items) => {
                let mut out: std::vec::Vec<ZclData> = std::vec::Vec::new();
                let mut i: usize = 0;
                while i < items.len()
                    invariant
                        i <= items@.len(),
                        out@.len() == i,
                        *self == ZclData::Array(*c, *items),
                        forall|j: int| 0 <= j < i ==> #[trigger] out@[j].spec_view() == items@[j].spec_view(),
                    decreases items@.len() - i,
                {
                    proof {
                        assert(decreases_to!(*self => self->Array_1));
                        assert(decreases_to!(*items => items@));
                        assert(decreases_to!(items@ => items@[i as int]));
                    }
                    out.push(items[i].duplicate());
                    i = i + 1;
                }
                proof {
                    lemma_items_view_eq(out@, items@);
                }
                ZclData::Array(*c, out)
            },
            ZclData::Structure(c, items) => {
                let mut out: std::vec::Vec<ZclData> = std::vec::Vec::new();
                let mut i: usize = 0;
                while i < items.len()
                    invariant
                        i <= items@.len(),
                        out@.len() == i,
                        *self == ZclData::Structure(*c, *items),
                        forall|j: int| 0 <= j < i ==> #[trigger] out@[j].spec_view() == items@[j].spec_view(),
                    decreases items@.len() - i,
                {
                    proof {
                        assert(decreases_to!(*self => self->Structure_1));
                        assert(decreases_to!(*items => items@));
                        assert(decreases_to!(items@ => items@[i as int]));
                    }
                    out.push(items[i].duplicate());
                    i = i + 1;
                }
                proof {
                    lemma_items_view_eq(out@, items@);
                }
                ZclData::Structure(*c, out)
            },
            ZclData::DataSet(c, items) => {
                let mut out: std::vec::Vec<ZclData> = std::vec::Vec::new();
                let mut i: usize = 0;
                while i < items.len()
                    invariant
                        i <= items@.len(),
                        out@.len() == i,
                        *self == ZclData::DataSet(*c, *items),
                        forall|j: int| 0 <= j < i ==> #[trigger] out@[j].spec_view() == items@[j].spec_view(),
                    decreases items@.len() - i,
                {
                    proof {
                        assert(decreases_to!(*self => self->DataSet_1));
                        assert(decreases_to!(*items => items@));
                        assert(decreases_to!(items@ => items@[i as int]));
                    }
                    out.push(items[i].duplicate());
                    i = i + 1;
                }
                proof {
                    lemma_items_view_eq(out@, items@);
                }
                ZclData::DataSet(*c, out)
            },
            ZclData::Bag(c, items) => {
                let mut out: std::vec::Vec<ZclData> = std::vec::Vec::new();
                let mut i: usize = 0;
                while i < items.len()
                    invariant
                        i <= items@.len(),
                        out@.len() == i,
                        *self == ZclData::Bag(*c, *items),
                        forall|j: int| 0 <= j < i ==> #[trigger] out@[j].spec_view() == items@[j].spec_view(),
                    decreases items@.len() - i,
                {
                    proof {
                        assert(decreases_to!(*self => self->Bag_1));
                        assert(decreases_to!(*items => items@));
                        assert(decreases_to!(items@ => items@[i as int]));
                    }
                    out.push(items[i].duplicate());
                    i = i + 1;
                }
                proof {
                    lemma_items_view_eq(out@, items@);
                }
                ZclData::Bag(*c, out)
            },
            ZclData::Time(x) => ZclData::Time(*x),
            ZclData::Date(x) => ZclData::Date(*x),
            ZclData::Timestamp(x) => ZclData::Timestamp(*x),
            ZclData::ClusterId(x) => ZclData::ClusterId(*x),
            ZclData::AttributeId(x) => ZclData::AttributeId(*x),
            ZclData::BacNetOid(x) => ZclData::BacNetOid(*x),
            ZclData::IeeeAddress(x) => ZclData::IeeeAddress(*x),
            ZclData::SecurityKey(x) => ZclData::SecurityKey(*x),
        }
    }
}

/// Lists whose items have the same views have the same views.
pub proof fn lemma_items_view_eq(a: Seq<ZclData>, b: Seq<ZclData>)
    requires
        a.len() == b.len(),
        forall|j: int| 0 <= j < a.len() ==> #[trigger] a[j].spec_view() == b[j].spec_view(),
    ensures
        items_view(a) == items_view(b),
    decreases a.len(),
{
    if a.len() > 0 {
        lemma_items_view_eq(a.drop_last(), b.drop_last());
        assert(a.last().spec_view() == b[b.len() - 1].spec_view());
    }
}

/// The number an integer or enumeration holds.
pub open spec fn spec_int_value(d: ZclDataView) -> Option<int> {
    match d {
        ZclDataView::UInt8(x) => Some(x as int),
        ZclDataView::UInt16(x) => Some(x as int),
        ZclDataView::UInt24(x) => Some(x as int),
        ZclDataView::UInt32(x) => Some(x as int),
        ZclDataView::UInt40(x) => Some(x as int),
        ZclDataView::UInt48(x) => Some(x as int),
        ZclDataView::UInt56(x) => Some(x as int),
        ZclDataView::UInt64(x) => Some(x as int),
        ZclDataView::Int8(x) => Some(x as int),
        ZclDataView::Int16(x) => Some(x as int),
        ZclDataView::Int24(x) => Some(x as int),
        ZclDataView::Int32(x) => Some(x as int),
        ZclDataView::Int40(x) => Some(x as int),
        ZclDataView::Int48(x) => Some(x as int),
        ZclDataView::Int56(x) => Some(x as int),
        ZclDataView::Int64(x) => Some(x as int),
        ZclDataView::Enum8(x) => Some(x as int),
        ZclDataView::Enum16(x) => Some(x as int),
        _ => None,
    }
}

impl ZclData {
    /// The number an integer or enumeration holds.
    pub fn int_value(&self) -> (r: Option<i128>)
        ensures
            r matches Some(x) ==> spec_int_value(self.spec_view()) == Some(x as int),
            r is None ==> spec_int_value(self.spec_view()) is None,
    {
        match self {
            ZclData::UInt8(x) => Some(*x as i128),
            ZclData::UInt16(x) => Some(*x as i128),
            ZclData::UInt24(x) => Some(*x as i128),
            ZclData::UInt32(x) => Some(*x as i128),
            ZclData::UInt40(x) => Some(*x as i128),
            ZclData::UInt48(x) => Some(*x as i128),
            ZclData::UInt56(x) => Some(*x as i128),
            ZclData::UInt64(x) => Some(*x as i128),
            ZclData::Int8(x) => Some(*x as i128),
            ZclData::Int16(x) => Some(*x as i128),
            ZclData::Int24(x) => Some(*x as i128),
            ZclData::Int32(x) => Some(*x as i128),
            ZclData::Int40(x) => Some(*x as i128),
            ZclData::Int48(x) => Some(*x as i128),
            ZclData::Int56(x) => Some(*x as i128),
            ZclData::Int64(x) => Some(*x as i128),
            ZclData::Enum8(x) => Some(*x as i128),
            ZclData::Enum16(x) => Some(*x as i128),
            _ => None,
        }
    }
}

/// Each value is written with the data type tag of the cluster library
/// specification for its type.
pub proof fn lemma_data_type_tags(x: ZclDataView)
    ensures
        x is Null ==> x.spec_tag() == 0x00u8,
        x is Data8 ==> x.spec_tag() == 0x08u8,
        x is Data16 ==> x.spec_tag() == 0x09u8,
        x is Data24 ==> x.spec_tag() == 0x0au8,
        x is Data32 ==> x.spec_tag() == 0x0bu8,
        x is Data40 ==> x.spec_tag() == 0x0cu8,
        x is Data48 ==> x.spec_tag() == 0x0du8,
        x is Data56 ==> x.spec_tag() == 0x0eu8,
        x is Data64 ==> x.spec_tag() == 0x0fu8,
        x is Bool ==> x.spec_tag() == 0x10u8,
        x is Bitmap8 ==> x.spec_tag() == 0x18u8,
        x is Bitmap16 ==> x.spec_tag() == 0x19u8,
        x is Bitmap24 ==> x.spec_tag() == 0x1au8,
        x is Bitmap32 ==> x.spec_tag() == 0x1bu8,
        x is Bitmap40 ==> x.spec_tag() == 0x1cu8,
        x is Bitmap48 ==> x.spec_tag() == 0x1du8,
        x is Bitmap56 ==> x.spec_tag() == 0x1eu8,
        x is Bitmap64 ==> x.spec_tag() == 0x1fu8,
        x is UInt8 ==> x.spec_tag() == 0x20u8,
        x is UInt16 ==> x.spec_tag() == 0x21u8,
        x is UInt24 ==> x.spec_tag() == 0x22u8,
        x is UInt32 ==> x.spec_tag() == 0x23u8,
        x is UInt40 ==> x.spec_tag() == 0x24u8,
        x is UInt48 ==> x.spec_tag() == 0x25u8,
        x is UInt56 ==> x.spec_tag() == 0x26u8,
        x is UInt64 ==> x.spec_tag() == 0x27u8,
        x is Int8 ==> x.spec_tag() == 0x28u8,
        x is Int16 ==> x.spec_tag() == 0x29u8,
        x is Int24 ==> x.spec_tag() == 0x2au8,
        x is Int32 ==> x.spec_tag() == 0x2bu8,
        x is Int40 ==> x.spec_tag() == 0x2cu8,
        x is Int48 ==> x.spec_tag() == 0x2du8,
        x is Int56 ==> x.spec_tag() == 0x2eu8,
        x is Int64 ==> x.spec_tag() == 0x2fu8,
        x is Enum8 ==> x.spec_tag() == 0x30u8,
        x is Enum16 ==> x.spec_tag() == 0x31u8,
        x is Float16 ==> x.spec_tag() == 0x38u8,
        x is Float ==> x.spec_tag() == 0x39u8,
        x is Double ==> x.spec_tag() == 0x3au8,
        x is OctetString ==> x.spec_tag() == 0x41u8,
        x is String ==> x.spec_tag() == 0x42u8,
        x is LongOctetString ==> x.spec_tag() == 0x43u8,
        x is LongString ==> x.spec_tag() == 0x44u8,
        x is Array ==> x.spec_tag() == 0x48u8,
        x is Structure ==> x.spec_tag() == 0x4cu8,
        x is DataSet ==> x.spec_tag() == 0x50u8,
        x is Bag ==> x.spec_tag() == 0x51u8,
        x is Time ==> x.spec_tag() == 0xe0u8,
        x is Date ==> x.spec_tag() == 0xe1u8,
        x is Timestamp ==> x.spec_tag() == 0xe2u8,
        x is ClusterId ==> x.spec_tag() == 0xe8u8,
        x is AttributeId ==> x.spec_tag() == 0xe9u8,
        x is BacNetOid ==> x.spec_tag() == 0xeau8,
        x is IeeeAddress ==> x.spec_tag() == 0xf0u8,
        x is SecurityKey ==> x.spec_tag() == 0xf1u8,
{
}

/// How a value of fixed size is written after its tag: nothing for no
/// value, one byte 1 or 0 for a boolean, and each number in its width of
/// the cluster library specification, low byte first (negative numbers in
/// two's complement); a string or an octet string by its length in one
/// byte, then its bytes.
pub proof fn lemma_value_layouts(d: ZclDataView, depth: nat)
    ensures
        depth <= 15 && d is Null ==> d.spec_payload(depth) == Some(Seq::<u8>::empty()),
        d matches ZclDataView::Bool(b) ==> (depth <= 15 ==> d.spec_payload(depth) == Some(seq![if b { 1u8 } else { 0u8 }])),
        d matches ZclDataView::Data8(x) ==> (depth <= 15 ==> d.spec_payload(depth) == Some(le_bytes(x as nat, 1)) && d.spec_payload(depth)->Some_0.len() == 1),
        d matches ZclDataView::Data16(x) ==> (depth <= 15 ==> d.spec_payload(depth) == Some(le_bytes(x as nat, 2)) && d.spec_payload(depth)->Some_0.len() == 2),
        d matches ZclDataView::Data24(x) ==> (depth <= 15 ==> d.spec_payload(depth) == Some(le_bytes(x as nat, 3)) && d.spec_payload(depth)->Some_0.len() == 3),
        d matches ZclDataView::Data32(x) ==> (depth <= 15 ==> d.spec_payload(depth) == Some(le_bytes(x as nat, 4)) && d.spec_payload(depth)->Some_0.len() == 4),
        d matches ZclDataView::Data40(x) ==> (depth <= 15 ==> d.spec_payload(depth) == Some(le_bytes(x as nat, 5)) && d.spec_payload(depth)->Some_0.len() == 5),
        d matches ZclDataView::Data48(x) ==> (depth <= 15 ==> d.spec_payload(depth) == Some(le_bytes(x as nat, 6)) && d.spec_payload(depth)->Some_0.len() == 6),
        d matches ZclDataView::Data56(x) ==> (depth <= 15 ==> d.spec_payload(depth) == Some(le_bytes(x as nat, 7)) && d.spec_payload(depth)->Some_0.len() == 7),
        d matches ZclDataView::Data64(x) ==> (depth <= 15 ==> d.spec_payload(depth) == Some(le_bytes(x as nat, 8)) && d.spec_payload(depth)->Some_0.len() == 8),
        d matches ZclDataView::Bitmap8(x) ==> (depth <= 15 ==> d.spec_payload(depth) == Some(le_bytes(x as nat, 1)) && d.spec_payload(depth)->Some_0.len() == 1),
        d matches ZclDataView::Bitmap16(x) ==> (depth <= 15 ==> d.spec_payload(depth) == Some(le_bytes(x as nat, 2)) && d.spec_payload(depth)->Some_0.len() == 2),
        d matches ZclDataView::Bitmap24(x) ==> (depth <= 15 ==> d.spec_payload(depth) == Some(le_bytes(x as nat, 3)) && d.spec_payload(depth)->Some_0.len() == 3),
        d matches ZclDataView::Bitmap32(x) ==> (depth <= 15 ==> d.spec_payload(depth) == Some(le_bytes(x as nat, 4)) && d.spec_payload(depth)->Some_0.len() == 4),
        d matches ZclDataView::Bitmap40(x) ==> (depth <= 15 ==> d.spec_payload(depth) == Some(le_bytes(x as nat, 5)) && d.spec_payload(depth)->Some_0.len() == 5),
        d matches ZclDataView::Bitmap48(x) ==> (depth <= 15 ==> d.spec_payload(depth) == Some(le_bytes(x as nat, 6)) && d.spec_payload(depth)->Some_0.len() == 6),
        d matches ZclDataView::Bitmap56(x) ==> (depth <= 15 ==> d.spec_payload(depth) == Some(le_bytes(x as nat, 7)) && d.spec_payload(depth)->Some_0.len() == 7),
        d matches ZclDataView::Bitmap64(x) ==> (depth <= 15 ==> d.spec_payload(depth) == Some(le_bytes(x as nat, 8)) && d.spec_payload(depth)->Some_0.len() == 8),
        d matches ZclDataView::UInt8(x) ==> (depth <= 15 ==> d.spec_payload(depth) == Some(le_bytes(x as nat, 1)) && d.spec_payload(depth)->Some_0.len() == 1),
        d matches ZclDataView::UInt16(x) ==> (depth <= 15 ==> d.spec_payload(depth) == Some(le_bytes(x as nat, 2)) && d.spec_payload(depth)->Some_0.len() == 2),
        d matches ZclDataView::UInt24(x) ==> (depth <= 15 ==> d.spec_payload(depth) == Some(le_bytes(x as nat, 3)) && d.spec_payload(depth)->Some_0.len() == 3),
        d matches ZclDataView::UInt32(x) ==> (depth <= 15 ==> d.spec_payload(depth) == Some(le_bytes(x as nat, 4)) && d.spec_payload(depth)->Some_0.len() == 4),
        d matches ZclDataView::UInt40(x) ==> (depth <= 15 ==> d.spec_payload(depth) == Some(le_bytes(x as nat, 5)) && d.spec_payload(depth)->Some_0.len() == 5),
        d matches ZclDataView::UInt48(x) ==> (depth <= 15 ==> d.spec_payload(depth) == Some(le_bytes(x as nat, 6)) && d.spec_payload(depth)->Some_0.len() == 6),
        d matches ZclDataView::UInt56(x) ==> (depth <= 15 ==> d.spec_payload(depth) == Some(le_bytes(x as nat, 7)) && d.spec_payload(depth)->Some_0.len() == 7),
        d matches ZclDataView::UInt64(x) ==> (depth <= 15 ==> d.spec_payload(depth) == Some(le_bytes(x as nat, 8)) && d.spec_payload(depth)->Some_0.len() == 8),
        d matches ZclDataView::Int8(x) ==> (depth <= 15 ==> d.spec_payload(depth) == Some(le_bytes((x as u8) as nat, 1)) && d.spec_payload(depth)->Some_0.len() == 1),
        d matches ZclDataView::Int16(x) ==> (depth <= 15 ==> d.spec_payload(depth) == Some(le_bytes((x as u16) as nat, 2)) && d.spec_payload(depth)->Some_0.len() == 2),
        d matches ZclDataView::Int24(x) ==> (depth <= 15 ==> d.spec_payload(depth) == Some(le_bytes((x as u32) as nat, 3)) && d.spec_payload(depth)->Some_0.len() == 3),
        d matches ZclDataView::Int32(x) ==> (depth <= 15 ==> d.spec_payload(depth) == Some(le_bytes((x as u32) as nat, 4)) && d.spec_payload(depth)->Some_0.len() == 4),
        d matches ZclDataView::Int40(x) ==> (depth <= 15 ==> d.spec_payload(depth) == Some(le_bytes((x as u64) as nat, 5)) && d.spec_payload(depth)->Some_0.len() == 5),
        d matches ZclDataView::Int48(x) ==> (depth <= 15 ==> d.spec_payload(depth) == Some(le_bytes((x as u64) as nat, 6)) && d.spec_payload(depth)->Some_0.len() == 6),
        d matches ZclDataView::Int56(x) ==> (depth <= 15 ==> d.spec_payload(depth) == Some(le_bytes((x as u64) as nat, 7)) && d.spec_payload(depth)->Some_0.len() == 7),
        d matches ZclDataView::Int64(x) ==> (depth <= 15 ==> d.spec_payload(depth) == Some(le_bytes((x as u64) as nat, 8)) && d.spec_payload(depth)->Some_0.len() == 8),
        d matches ZclDataView::Enum8(x) ==> (depth <= 15 ==> d.spec_payload(depth) == Some(le_bytes(x as nat, 1)) && d.spec_payload(depth)->Some_0.len() == 1),
        d matches ZclDataView::Enum16(x) ==> (depth <= 15 ==> d.spec_payload(depth) == Some(le_bytes(x as nat, 2)) && d.spec_payload(depth)->Some_0.len() == 2),
        d matches ZclDataView::Float16(x) ==> (depth <= 15 ==> d.spec_payload(depth) == Some(le_bytes(x as nat, 2)) && d.spec_payload(depth)->Some_0.len() == 2),
        d matches ZclDataView::Float(x) ==> (depth <= 15 ==> d.spec_payload(depth) == Some(le_bytes(x as nat, 4)) && d.spec_payload(depth)->Some_0.len() == 4),
        d matches ZclDataView::Double(x) ==> (depth <= 15 ==> d.spec_payload(depth) == Some(le_bytes(x as nat, 8)) && d.spec_payload(depth)->Some_0.len() == 8),
        d matches ZclDataView::OctetString(x) ==> (depth <= 15 ==> d.spec_payload(depth) == Some(seq![x.len() as u8] + x)),
        d matches ZclDataView::String(x) ==> (depth <= 15 ==> d.spec_payload(depth) == Some(
            seq![encode_utf8(x).len() as u8] + encode_utf8(x),
        )),
{
    crate::bytes::lemma_le_bytes_len(0, 0);
    assert forall|x: nat, n: nat| #[trigger] le_bytes(x, n).len() == n by {
        crate::bytes::lemma_le_bytes_len(x, n);
    }
}

} // verus!
