//! The light's state and the device protocol's wire representation.
//!
//! A [`LightState`] keeps temperature in Kelvin; the device exchanges an
//! entry `{on: 0|1, brightness: 0..=100, temperature: unit}` with
//! temperature in its native unit. [`encode_state`] builds that entry and
//! [`decode_reply`] reads the first entry of a device reply, already
//! split into plain values by the caller that performed the request.

use vstd::prelude::*;
use vstd::string::StringExecFns;

use crate::convert::KELVIN_MAX;
use crate::convert::KELVIN_MIN;
use crate::convert::UNIT_MAX;
use crate::convert::UNIT_MIN;
use crate::convert::api_temp_to_kelvin;
use crate::convert::kelvin_to_api_temp;
use crate::convert::spec_kelvin_to_unit;
use crate::convert::spec_unit_to_kelvin;

verus! {

/// What the controller knows of the light: on/off, brightness in
/// percent, and color temperature in Kelvin.
#[derive(Clone, Copy, Debug, PartialEq, Eq, Structural)]
pub struct LightState {
    pub on: bool,
    pub brightness: u8,
    pub temperature: u16,
}

impl LightState {
    /// The struct's invariant: brightness and temperature lie in the
    /// ranges the device supports.
    pub open spec fn wf(self) -> bool {
        &&& self.brightness <= 100
        &&& KELVIN_MIN <= self.temperature <= KELVIN_MAX
    }

    /// Builds a well-formed state, forcing brightness and temperature
    /// into their ranges.
    pub fn clamped(on: bool, brightness: u8, temperature: u16) -> (s: LightState)
        ensures
            s.wf(),
            s.on == on,
            s.brightness == if brightness > 100 { 100u8 } else { brightness },
            s.temperature == if temperature < KELVIN_MIN {
                KELVIN_MIN
            } else if temperature > KELVIN_MAX {
                KELVIN_MAX
            } else {
                temperature
            },
    {
        LightState {
            on,
            brightness: if brightness > 100 { 100 } else { brightness },
            temperature: if temperature < KELVIN_MIN {
                KELVIN_MIN
            } else if temperature > KELVIN_MAX {
                KELVIN_MAX
            } else {
                temperature
            },
        }
    }
}

/// A failure of one device request. None is fatal to the caller.
#[derive(Clone, Copy, Debug, PartialEq, Eq, Structural)]
pub enum DeviceError {
    /// The device could not be reached at all.
    Unreachable,
    /// The device answered with a non-success status code.
    ServerRejected(u16),
    /// The device's reply was malformed or incomplete.
    ParseError,
}

/// One light entry as the device expects it on the wire.
#[derive(Clone, Copy, Debug, PartialEq, Eq, Structural)]
pub struct WireLight {
    /// `1` for on, `0` for off.
    pub on: u8,
    /// Brightness in percent, unchanged from the light state.
    pub brightness: u8,
    /// Temperature in the device's native unit.
    pub temperature: u16,
}

impl WireLight {
    /// The wire entry's invariant: every field in its wire range.
    pub open spec fn wf(self) -> bool {
        &&& self.on <= 1
        &&& self.brightness <= 100
        &&& UNIT_MIN <= self.temperature <= UNIT_MAX
    }
}

/// Encodes a light state as the single wire entry of a write request:
/// `on` as 0/1, brightness unchanged, temperature converted to the
/// device's native unit.
pub fn encode_state(s: &LightState) -> (w: WireLight)
    requires
        s.wf(),
    ensures
        w.on == if s.on { 1u8 } else { 0u8 },
        w.brightness == s.brightness,
        w.temperature as int == spec_kelvin_to_unit(s.temperature as int),
        w.wf(),
{
    WireLight {
        on: if s.on { 1 } else { 0 },
        brightness: s.brightness,
        temperature: kelvin_to_api_temp(s.temperature),
    }
}

/// One light entry of a device reply, before interpretation: each field
/// as sent, or absent.
#[derive(Clone, Copy, Debug)]
pub struct RawLight {
    pub on: Option<u64>,
    pub brightness: Option<u64>,
    pub temperature: Option<u64>,
}

/// A device reply to a read request, reduced to plain values by the
/// caller: either the body held no light array at all, or the entries
/// it held.
#[derive(Debug)]
pub enum DeviceReply {
    /// The body was not readable as a reply with a light array.
    Malformed,
    /// The entries of the reply's light array, in order.
    Lights(Vec<RawLight>),
}

/// The on flag read from a present field: any non-zero value is on.
pub open spec fn spec_decode_on(v: u64) -> bool {
    v != 0
}

/// The brightness read from a present field: truncated to a byte as
/// the device protocol's width allows, then forced under the
/// 100-percent cap.
pub open spec fn spec_decode_brightness(v: u64) -> int {
    let raw = (v as int) % 256;
    if raw > 100 {
        100int
    } else {
        raw
    }
}

/// The temperature read from a present field: truncated to the wire
/// width and converted from the device unit to Kelvin.
pub open spec fn spec_decode_temperature(v: u64) -> int {
    spec_unit_to_kelvin((v as int) % 65536)
}

/// The light state read from one complete entry.
pub open spec fn spec_decode_light(on: u64, brightness: u64, temperature: u64) -> LightState {
    LightState {
        on: spec_decode_on(on),
        brightness: spec_decode_brightness(brightness) as u8,
        temperature: spec_decode_temperature(temperature) as u16,
    }
}

/// Decodes a device reply into a light state from the first entry of
/// its light array. Missing pieces are not acceptable: a reply without
/// the array, without a first entry, or whose first entry lacks any of
/// the three fields is incomplete, a parse error.
pub fn decode_reply(reply: &DeviceReply) -> (r: Result<LightState, DeviceError>)
    ensures
        match reply {
            DeviceReply::Malformed => r == Err::<LightState, DeviceError>(DeviceError::ParseError),
            DeviceReply::Lights(entries) => if entries@.len() == 0 {
                r == Err::<LightState, DeviceError>(DeviceError::ParseError)
            } else {
                match (entries@[0].on, entries@[0].brightness, entries@[0].temperature) {
                    (Some(o), Some(b), Some(t)) => r == Ok::<LightState, DeviceError>(
                        spec_decode_light(o, b, t),
                    ),
                    _ => r == Err::<LightState, DeviceError>(DeviceError::ParseError),
                }
            },
        },
        r matches Ok(s) ==> s.wf(),
{
    match reply {
        DeviceReply::Malformed => Err(DeviceError::ParseError),
        DeviceReply::Lights(entries) => {
            if entries.len() == 0 {
                Err(DeviceError::ParseError)
            } else {
                let first = entries[0];
                match (first.on, first.brightness, first.temperature) {
                    (Some(o), Some(b), Some(t)) => {
                        let on = o != 0;
                        let b8: u8 = (b % 256) as u8;
                        let brightness: u8 = if b8 > 100 {
                            100
                        } else {
                            b8
                        };
                        let temperature: u16 = api_temp_to_kelvin((t % 65536) as u16);
                        Ok(LightState { on, brightness, temperature })
                    },
                    _ => Err(DeviceError::ParseError),
                }
            }
        },
    }
}

/// Classifies the status code of a device response: the 2xx range is
/// success, anything else a rejection carrying the code.
pub fn classify_status(status: u16) -> (r: Result<(), DeviceError>)
    ensures
        200 <= status < 300 ==> r == Ok::<(), DeviceError>(()),
        !(200 <= status < 300) ==> r == Err::<(), DeviceError>(DeviceError::ServerRejected(status)),
{
    if 200 <= status && status < 300 {
        Ok(())
    } else {
        Err(DeviceError::ServerRejected(status))
    }
}

/// The decimal digit `d` as a character.
pub open spec fn spec_digit_char(d: int) -> char {
    if d == 0 {
        '0'
    } else if d == 1 {
        '1'
    } else if d == 2 {
        '2'
    } else if d == 3 {
        '3'
    } else if d == 4 {
        '4'
    } else if d == 5 {
        '5'
    } else if d == 6 {
        '6'
    } else if d == 7 {
        '7'
    } else if d == 8 {
        '8'
    } else {
        '9'
    }
}

/// `n` written in decimal without leading zeros, for `n` up to 999.
pub open spec fn spec_decimal(n: int) -> Seq<char> {
    if n < 10 {
        seq![spec_digit_char(n)]
    } else if n < 100 {
        seq![spec_digit_char(n / 10), spec_digit_char(n % 10)]
    } else {
        seq![spec_digit_char(n / 100), spec_digit_char((n / 10) % 10), spec_digit_char(n % 10)]
    }
}

/// The exact body of a write request carrying the wire entry `w`: one
/// light, its fields in decimal.
pub open spec fn spec_request_body(w: WireLight) -> Seq<char> {
    "{\"numberOfLights\":1,\"lights\":[{\"on\":"@ + spec_decimal(w.on as int)
        + ",\"brightness\":"@ + spec_decimal(w.brightness as int) + ",\"temperature\":"@
        + spec_decimal(w.temperature as int) + "}]}"@
}

/// One decimal digit as text.
fn digit_str(d: u8) -> (r: &'static str)
    requires
        d <= 9,
    ensures
        r@ == seq![spec_digit_char(d as int)],
{
    proof {
        reveal_strlit("0");
        reveal_strlit("1");
        reveal_strlit("2");
        reveal_strlit("3");
        reveal_strlit("4");
        reveal_strlit("5");
        reveal_strlit("6");
        reveal_strlit("7");
        reveal_strlit("8");
        reveal_strlit("9");
        assert("0"@ =~= seq!['0']);
        assert("1"@ =~= seq!['1']);
        assert("2"@ =~= seq!['2']);
        assert("3"@ =~= seq!['3']);
        assert("4"@ =~= seq!['4']);
        assert("5"@ =~= seq!['5']);
        assert("6"@ =~= seq!['6']);
        assert("7"@ =~= seq!['7']);
        assert("8"@ =~= seq!['8']);
        assert("9"@ =~= seq!['9']);
    }
    match d {
        0 => "0",
        1 => "1",
        2 => "2",
        3 => "3",
        4 => "4",
        5 => "5",
        6 => "6",
        7 => "7",
        8 => "8",
        _ => "9",
    }
}

/// Appends `n` in decimal.
fn push_decimal(out: &mut String, n: u16)
    requires
        n <= 999,
    ensures
        final(out)@ == old(out)@ + spec_decimal(n as int),
{
    if n < 10 {
        out.append(digit_str(n as u8));
    } else if n < 100 {
        out.append(digit_str((n / 10) as u8));
        out.append(digit_str((n % 10) as u8));
        assert(out@ =~= old(out)@ + spec_decimal(n as int));
    } else {
        out.append(digit_str((n / 100) as u8));
        out.append(digit_str(((n / 10) % 10) as u8));
        out.append(digit_str((n % 10) as u8));
        assert(out@ =~= old(out)@ + spec_decimal(n as int));
    }
}

/// Frames the whole body of a write request for the wire entry `w`,
/// character for character as the device expects it.
pub fn encode_request_body(w: &WireLight) -> (r: String)
    requires
        w.wf(),
    ensures
        r@ == spec_request_body(*w),
{
    let mut out = String::from_str("{\"numberOfLights\":1,\"lights\":[{\"on\":");
    push_decimal(&mut out, w.on as u16);
    out.append(",\"brightness\":");
    push_decimal(&mut out, w.brightness as u16);
    out.append(",\"temperature\":");
    push_decimal(&mut out, w.temperature);
    out.append("}]}");
    assert(out@ =~= spec_request_body(*w));
    out
}

} // verus!
