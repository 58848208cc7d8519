//! The state that a connection to the wheel keeps between reports, and the decisions
//! taken on it: which report to send, and what a received report changes.
use vstd::prelude::*;

use crate::enums::{ReportType, SettingField};
use crate::error::WheelError;
use crate::protocol::buffers::{
    activation_report, build_activation_buf, lemma_setting_report_reads_back, setting_report,
};
use crate::protocol::bytes::{clamp, le_u16};
use crate::protocol::license::{
    hex_value, is_license_key, license_error_text, license_segments, parse_license_key,
};
use crate::protocol::reports::{
    decodes_device_state, device_state_layout, first_overrun, layout_len, parse_device_state,
};
use crate::types::{DeviceState, EffectSettings, FirmwareVersion};

verus! {

/// What a session remembers: the motion range last known, and the last device state received.
pub struct SessionView {
    /// Motion range (degrees) last read from or written to the device.
    pub motion_range: Option<u16>,
    /// The last device state received.
    pub last_state: Option<DeviceState>,
}

/// The state a connection to the wheel keeps between reports.
pub struct WheelSession {
    cached_motion_range: Option<u16>,
    last_state: Option<DeviceState>,
}

impl View for WheelSession {
    type V = SessionView;

    closed spec fn view(&self) -> SessionView {
        SessionView { motion_range: self.cached_motion_range, last_state: self.last_state }
    }
}

/// The motion range a session remembers after writing `value` to the motion range setting is
/// the one the written report carries: the report's value bytes read back as that range.
pub proof fn lemma_remembered_range_is_written_range(index: u8, value: int)
    ensures
        le_u16(setting_report(SettingField::MotionRange, index, value), 4) == clamp(
            value,
            0,
            65535,
        ) as u16,
{
    lemma_setting_report_reads_back(SettingField::MotionRange, index, value);
}

/// The device reports itself registered in `state`.
pub open spec fn is_registered_state(state: Option<DeviceState>) -> bool {
    state matches Some(s) && s.is_registered == 1
}

/// The decimal digit character of `d`.
pub open spec fn digit_char(d: nat) -> char {
    ('0' as nat + d) as char
}

/// The decimal numeral of `n`, without leading zeros.
pub open spec fn decimal(n: nat) -> Seq<char>
    decreases n,
{
    if n < 10 {
        seq![digit_char(n)]
    } else {
        decimal(n / 10).push(digit_char(n % 10))
    }
}

/// The value of the decimal numeral `s`, most significant digit first, each character
/// counting for its distance from `'0'`.
pub open spec fn decimal_value(s: Seq<char>) -> int
    decreases s.len(),
{
    if s.len() == 0 {
        0
    } else {
        decimal_value(s.drop_last()) * 10 + (s.last() as int - '0' as int)
    }
}

/// `s` is a decimal numeral as `format!("{}")` writes an unsigned number: at least one
/// digit, only digits `'0'..='9'`, and no leading zero unless the numeral is `"0"`.
pub open spec fn is_decimal_numeral(s: Seq<char>) -> bool {
    &&& s.len() >= 1
    &&& forall|i: int| 0 <= i < s.len() ==> '0' <= #[trigger] s[i] <= '9'
    &&& s[0] == '0' ==> s.len() == 1
}

/// Every number is written with at least one digit, in canonical decimal form, and the
/// numeral reads back as the number: `decimal(0)` is `"0"`, `decimal(105)` is `"105"`.
pub proof fn lemma_decimal_reads_back(n: nat)
    ensures
        is_decimal_numeral(decimal(n)),
        decimal_value(decimal(n)) == n,
    decreases n,
{
    if n >= 10 {
        lemma_decimal_reads_back(n / 10);
        let d = decimal(n);
        let p = decimal(n / 10);
        assert(d == p.push(digit_char(n % 10)));
        assert(digit_char(n % 10) as int == '0' as int + n % 10);
        assert(d.drop_last() =~= p);
        assert(n == (n / 10) * 10 + n % 10);
        assert forall|i: int| 0 <= i < d.len() implies '0' <= #[trigger] d[i] <= '9' by {
            if i < p.len() {
                assert(d[i] == p[i]);
            }
        }
        assert(d[0] == p[0]);
        if p[0] == '0' {
            assert(n / 10 == decimal_value(p));
            assert(p.len() == 1);
            assert(p.drop_last() =~= Seq::<char>::empty());
            assert(decimal_value(Seq::<char>::empty()) == 0);
            assert(p.last() == p[0]);
            assert(decimal_value(p) == 0);
        }
    } else {
        let d = decimal(n);
        assert(d.drop_last() =~= Seq::<char>::empty());
        assert(decimal_value(Seq::<char>::empty()) == 0);
        assert(digit_char(n) as int == '0' as int + n);
    }
}

/// The version text is the three components in decimal, separated by single dots: the
/// text splits at its two dots into canonical numerals that read back as `major`, `minor`
/// and `patch`.
pub proof fn lemma_version_text_reads_back(v: FirmwareVersion)
    ensures
        ({
            let t = version_text(v);
            let a = decimal(v.major as nat).len() as int;
            let b = decimal(v.minor as nat).len() as int;
            &&& 1 <= a && 1 <= b && a + b + 2 < t.len()
            &&& t[a] == '.' && t[a + 1 + b] == '.'
            &&& is_decimal_numeral(t.subrange(0, a))
            &&& is_decimal_numeral(t.subrange(a + 1, a + 1 + b))
            &&& is_decimal_numeral(t.subrange(a + b + 2, t.len() as int))
            &&& decimal_value(t.subrange(0, a)) == v.major
            &&& decimal_value(t.subrange(a + 1, a + 1 + b)) == v.minor
            &&& decimal_value(t.subrange(a + b + 2, t.len() as int)) == v.patch
        }),
{
    lemma_decimal_reads_back(v.major as nat);
    lemma_decimal_reads_back(v.minor as nat);
    lemma_decimal_reads_back(v.patch as nat);
    let t = version_text(v);
    let x = decimal(v.major as nat);
    let y = decimal(v.minor as nat);
    let z = decimal(v.patch as nat);
    let a = x.len() as int;
    let b = y.len() as int;
    assert(t.subrange(0, a) =~= x);
    assert(t.subrange(a + 1, a + 1 + b) =~= y);
    assert(t.subrange(a + b + 2, t.len() as int) =~= z);
}

/// The text `major.minor.patch` of a firmware version.
pub open spec fn version_text(v: FirmwareVersion) -> Seq<char> {
    decimal(v.major as nat) + seq!['.'] + decimal(v.minor as nat) + seq!['.'] + decimal(
        v.patch as nat,
    )
}

fn digit_str(d: u8) -> (r: &'static str)
    requires
        d < 10,
    ensures
        r@ == seq![digit_char(d as nat)],
{
    proof {
        reveal_strlit("0");
        reveal_strlit("1");
        reveal_strlit("2");
        reveal_strlit("3");
        reveal_strlit("4");
        reveal_strlit("5");
        reveal_strlit("6");
        reveal_strlit("7");
        reveal_strlit("8");
        reveal_strlit("9");
    }
    let r = match d {
        0 => "0",
        1 => "1",
        2 => "2",
        3 => "3",
        4 => "4",
        5 => "5",
        6 => "6",
        7 => "7",
        8 => "8",
        _ => "9",
    };
    assert(r@ =~= seq![digit_char(d as nat)]);
    r
}

fn push_decimal(text: &mut String, n: u8)
    ensures
        final(text)@ == old(text)@ + decimal(n as nat),
{
    if n >= 100 {
        text.append(digit_str(n / 100));
        text.append(digit_str((n / 10) % 10));
        text.append(digit_str(n % 10));
        assert(decimal((n / 10) as nat) == decimal((n / 100) as nat).push(digit_char(((n / 10) % 10) as nat)));
        assert(decimal(n as nat) =~= seq![digit_char((n / 100) as nat)] + seq![digit_char(((n / 10) % 10) as nat)] + seq![digit_char((n % 10) as nat)]);
    } else if n >= 10 {
        text.append(digit_str(n / 10));
        text.append(digit_str(n % 10));
        assert(decimal((n / 10) as nat) == seq![digit_char((n / 10) as nat)]);
        assert(decimal(n as nat) =~= seq![digit_char((n / 10) as nat)] + seq![digit_char((n % 10) as nat)]);
    } else {
        text.append(digit_str(n));
    }
}

/// A copy of `s`.
fn copy_state(s: &DeviceState) -> (r: DeviceState)
    ensures
        r == *s,
{
    DeviceState {
        firmware_version: FirmwareVersion {
            release_type: s.firmware_version.release_type,
            major: s.firmware_version.major,
            minor: s.firmware_version.minor,
            patch: s.firmware_version.patch,
        },
        is_registered: s.is_registered,
        position: s.position,
        torque: s.torque,
    }
}

impl WheelSession {
    /// A fresh session: no motion range known and no state received.
    pub fn new() -> (r: Self)
        ensures
            r@.motion_range is None,
            r@.last_state is None,
    {
        WheelSession { cached_motion_range: None, last_state: None }
    }

    /// Remembers the motion range of the effect settings read from the device.
    pub fn adopt_effect_settings(&mut self, settings: &EffectSettings)
        ensures
            final(self)@.motion_range == Some(settings.motion_range),
            final(self)@.last_state == old(self)@.last_state,
    {
        self.cached_motion_range = Some(settings.motion_range);
    }

    /// Last device state received.
    pub fn last_state(&self) -> (r: Option<&DeviceState>)
        ensures
            r is None <==> self@.last_state is None,
            r matches Some(s) ==> self@.last_state == Some(*s),
    {
        match &self.last_state {
            Some(s) => Some(s),
            None => None,
        }
    }

    /// Motion range (degrees) last read from or written to the device.
    pub fn cached_motion_range(&self) -> (r: Option<u16>)
        ensures
            r == self@.motion_range,
    {
        self.cached_motion_range
    }

    /// Firmware release type byte of the last state, or `None` if no state was received.
    pub fn firmware_release_type(&self) -> (r: Option<u8>)
        ensures
            r == (match self@.last_state {
                Some(s) => Some(s.firmware_version.release_type),
                None => None::<u8>,
            }),
    {
        match &self.last_state {
            Some(s) => Some(s.firmware_version.release_type),
            None => None,
        }
    }

    /// Firmware version string of the last state (e.g. `"1.2.3"`), or `None` if no state
    /// was received.
    pub fn firmware_version(&self) -> (r: Option<String>)
        ensures
            r is None <==> self@.last_state is None,
            r matches Some(t) ==> t@ == version_text(self@.last_state->Some_0.firmware_version),
    {
        match &self.last_state {
            None => None,
            Some(s) => {
                let v = &s.firmware_version;
                let mut text = String::new();
                push_decimal(&mut text, v.major);
                text.append(".");
                push_decimal(&mut text, v.minor);
                text.append(".");
                push_decimal(&mut text, v.patch);
                proof {
                    reveal_strlit(".");
                }
                assert(text@ =~= version_text(*v));
                Some(text)
            },
        }
    }

    /// Records that `value` was written to the setting `field`: a motion range write updates
    /// the remembered motion range to the value as the device stores it (saturated to `u16`).
    pub fn record_setting_write(&mut self, field: SettingField, value: i64)
        ensures
            final(self)@.last_state == old(self)@.last_state,
            field == SettingField::MotionRange ==> final(self)@.motion_range == Some(
                clamp(value as int, 0, 65535) as u16,
            ),
            field != SettingField::MotionRange ==> final(self)@.motion_range == old(
                self,
            )@.motion_range,
    {
        if field == SettingField::MotionRange {
            let v = if value < 0 {
                0
            } else if value > 65535 {
                65535
            } else {
                value
            };
            self.cached_motion_range = Some(v as u16);
        }
    }

    /// Takes an input report of which the device delivered `n` bytes into `report` (report
    /// ID first). A report that is empty or not a generic input/output report is ignored
    /// (`Ok(None)`); otherwise the state that follows the report ID is decoded, remembered
    /// and returned, or the shortfall error is returned and nothing is remembered.
    pub fn accept_input_report(&mut self, report: &[u8], n: usize) -> (r: Result<
        Option<DeviceState>,
        WheelError,
    >)
        requires
            n <= report@.len(),
            report@.len() <= isize::MAX,
        ensures
            n == 0 || report@[0] != ReportType::GenericInputOutput.spec_code() ==> r == Ok::<
                Option<DeviceState>,
                WheelError,
            >(None) && final(self)@ == old(self)@,
            n != 0 && report@[0] == ReportType::GenericInputOutput.spec_code() ==> {
                let payload = report@.subrange(1, report@.len() as int);
                if layout_len(device_state_layout()) <= payload.len() {
                    &&& (r matches Ok(Some(s)) && decodes_device_state(payload, s)
                        && final(self)@.last_state == Some(s))
                    &&& final(self)@.motion_range == old(self)@.motion_range
                } else {
                    &&& r == Err::<Option<DeviceState>, WheelError>(
                        WheelError::BufferTooSmall {
                            expected: first_overrun(device_state_layout(), 0, payload.len() as int)
                                as usize,
                            got: payload.len() as usize,
                        },
                    )
                    &&& final(self)@ == old(self)@
                }
            },
    {
        if n == 0 || report[0] != ReportType::GenericInputOutput.code() {
            return Ok(None);
        }
        let payload = vstd::slice::slice_subrange(report, 1, report.len());
        match parse_device_state(payload) {
            Err(e) => Err(e),
            Ok(state) => {
                self.last_state = Some(copy_state(&state));
                Ok(Some(state))
            },
        }
    }

    /// The activation report for `license`, unless the last state says the device is
    /// already registered (`Ok(None)`: nothing is to be sent). A license string that is not
    /// a valid key is refused with [`WheelError::InvalidLicense`].
    pub fn activation_buf(&self, license: &str) -> (r: Result<Option<[u8; 65]>, WheelError>)
        ensures
            is_registered_state(self@.last_state) ==> r == Ok::<Option<[u8; 65]>, WheelError>(
                None,
            ),
            !is_registered_state(self@.last_state) && is_license_key(license@) ==> (r matches Ok(
                Some(b),
            ) && b@ == activation_report(
                seq![
                    hex_value(license_segments(license@)[0]) as u32,
                    hex_value(license_segments(license@)[1]) as u32,
                    hex_value(license_segments(license@)[2]) as u32,
                ],
            )),
            !is_registered_state(self@.last_state) && !is_license_key(license@) ==> (r matches Err(
                WheelError::InvalidLicense(m),
            ) && m@ == license_error_text(license@)),
    {
        let registered = match &self.last_state {
            Some(s) => s.is_registered == 1,
            None => false,
        };
        if registered {
            return Ok(None);
        }
        match parse_license_key(license) {
            Err(e) => Err(e),
            Ok(key) => Ok(Some(build_activation_buf(key))),
        }
    }
}

} // verus!
