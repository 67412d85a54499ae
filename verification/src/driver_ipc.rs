//! The commands that the virtual display driver takes over its pipe, and
//! what its answers mean. The pipe itself is the caller's: a command is
//! built here, written there, and the answer is read here again.

use crate::codec::HostPlatform;
use crate::text::{
    ascii_uppercase, chars_contain, chars_equal, chars_of, contains_text, decimal, push_decimal,
    strip, stripped_text, uppercase_range, CharClass,
};
use crate::wide::{
    decode_utf16, decode_utf8_lossy, encode_utf16, to_wide_bytes, units_from_le, units_le,
    utf16_strict, utf8_lossy, wide_from_bytes,
};
use vstd::prelude::*;
use vstd::string::*;

verus! {

/// A command for the driver: its text, and whether the driver answers it.
#[derive(Debug)]
pub struct DriverCommand {
    pub text: String,
    pub expect_response: bool,
}

/// `true` or `false`, as the driver reads a switch.
pub open spec fn switch_text(value: bool) -> Seq<char> {
    if value {
        "true"@
    } else {
        "false"@
    }
}

/// `name` with every double quote turned into a single quote.
pub open spec fn sanitized(name: Seq<char>) -> Seq<char> {
    Seq::new(
        name.len(),
        |i: int|
            if name[i] == '"' {
                '\''
            } else {
                name[i]
            },
    )
}

/// A text without the NULs and then the white space at its ends.
pub open spec fn cleaned(text: Seq<char>) -> Seq<char> {
    strip(strip(text, CharClass::Nul), CharClass::Whitespace)
}

/// What the driver's answer says. An answer of an even number of bytes, at
/// least two, is read as UTF-16 where that is well formed and leaves a
/// text; any other answer is read as UTF-8. Either way the NULs and then
/// the white space are taken off both ends.
pub open spec fn response_text(bytes: Seq<u8>) -> Seq<char> {
    let wide = if bytes.len() >= 2 && bytes.len() % 2 == 0 {
        match utf16_strict(units_from_le(bytes)) {
            Some(text) => cleaned(text),
            None => Seq::<char>::empty(),
        }
    } else {
        Seq::<char>::empty()
    };
    if wide.len() > 0 {
        wide
    } else {
        cleaned(utf8_lossy(bytes))
    }
}

/// `true` or `false`, as the driver reads a switch.
pub fn bool_to_str(value: bool) -> (text: &'static str)
    ensures
        text@ == switch_text(value),
{
    if value {
        "true"
    } else {
        "false"
    }
}

/// The command `keyword value` for a switch of the driver.
fn switch_command(keyword: &str, enabled: bool) -> (command: DriverCommand)
    ensures
        command.text@ == keyword@ + " "@ + switch_text(enabled),
        !command.expect_response,
{
    let mut text = String::from_str(keyword);
    text.append(" ");
    text.append(bool_to_str(enabled));
    DriverCommand { text, expect_response: false }
}

/// Asks the driver for `count` virtual displays.
pub fn set_display_count(count: u32) -> (command: DriverCommand)
    ensures
        command.text@ == "SETDISPLAYCOUNT "@ + decimal(count as nat),
        !command.expect_response,
{
    let mut text = String::from_str("SETDISPLAYCOUNT ");
    push_decimal(&mut text, count as u64);
    DriverCommand { text, expect_response: false }
}

/// Asks the driver to load itself anew.
pub fn reload_driver() -> (command: DriverCommand)
    ensures
        command.text@ == "RELOAD_DRIVER"@,
        !command.expect_response,
{
    DriverCommand { text: String::from_str("RELOAD_DRIVER"), expect_response: false }
}

/// Switches the driver's logging.
pub fn set_logging(enabled: bool) -> (command: DriverCommand)
    ensures
        command.text@ == "LOGGING"@ + " "@ + switch_text(enabled),
        !command.expect_response,
{
    switch_command("LOGGING", enabled)
}

/// Switches the driver's debug logging.
pub fn set_debug_logging(enabled: bool) -> (command: DriverCommand)
    ensures
        command.text@ == "LOG_DEBUG"@ + " "@ + switch_text(enabled),
        !command.expect_response,
{
    switch_command("LOG_DEBUG", enabled)
}

/// Switches HDR+.
pub fn set_hdr_plus(enabled: bool) -> (command: DriverCommand)
    ensures
        command.text@ == "HDRPLUS"@ + " "@ + switch_text(enabled),
        !command.expect_response,
{
    switch_command("HDRPLUS", enabled)
}

/// Switches ten-bit SDR.
pub fn set_sdr10(enabled: bool) -> (command: DriverCommand)
    ensures
        command.text@ == "SDR10"@ + " "@ + switch_text(enabled),
        !command.expect_response,
{
    switch_command("SDR10", enabled)
}

/// Switches the custom EDID.
pub fn set_custom_edid(enabled: bool) -> (command: DriverCommand)
    ensures
        command.text@ == "CUSTOMEDID"@ + " "@ + switch_text(enabled),
        !command.expect_response,
{
    switch_command("CUSTOMEDID", enabled)
}

/// Switches the protection against spoofing.
pub fn set_prevent_spoof(enabled: bool) -> (command: DriverCommand)
    ensures
        command.text@ == "PREVENTSPOOF"@ + " "@ + switch_text(enabled),
        !command.expect_response,
{
    switch_command("PREVENTSPOOF", enabled)
}

/// Switches the CEA override.
pub fn set_cea_override(enabled: bool) -> (command: DriverCommand)
    ensures
        command.text@ == "CEAOVERRIDE"@ + " "@ + switch_text(enabled),
        !command.expect_response,
{
    switch_command("CEAOVERRIDE", enabled)
}

/// Switches the hardware cursor.
pub fn set_hardware_cursor(enabled: bool) -> (command: DriverCommand)
    ensures
        command.text@ == "HARDWARECURSOR"@ + " "@ + switch_text(enabled),
        !command.expect_response,
{
    switch_command("HARDWARECURSOR", enabled)
}

/// Names the GPU that the driver is to use. Double quotes in the name
/// become single quotes, and the name goes between double quotes.
pub fn set_gpu(name: &str) -> (command: DriverCommand)
    ensures
        command.text@ == "SETGPU \""@ + sanitized(name@) + "\""@,
        !command.expect_response,
{
    let chars = chars_of(name);
    let mut text = String::from_str("SETGPU \"");
    let ghost prefix = text@;
    let mut i: usize = 0;
    while i < chars.len()
        invariant
            i <= chars.len(),
            chars@ == name@,
            text@ == prefix + sanitized(name@).subrange(0, i as int),
        decreases chars.len() - i,
    {
        let c: char = if chars[i] == '"' {
            '\''
        } else {
            chars[i]
        };
        text.push(c);
        assert(text@ =~= prefix + sanitized(name@).subrange(0, i + 1));
        i += 1;
    }
    assert(sanitized(name@).subrange(0, chars.len() as int) =~= sanitized(name@));
    text.append("\"");
    DriverCommand { text, expect_response: false }
}

/// Asks the driver whether it is there.
pub fn ping() -> (command: DriverCommand)
    ensures
        command.text@ == "PING"@,
        command.expect_response,
{
    DriverCommand { text: String::from_str("PING"), expect_response: true }
}

/// Asks the driver for its settings.
pub fn get_settings_raw() -> (command: DriverCommand)
    ensures
        command.text@ == "GETSETTINGS"@,
        command.expect_response,
{
    DriverCommand { text: String::from_str("GETSETTINGS"), expect_response: true }
}

/// The bytes that carry a command over the pipe: its UTF-16 code units,
/// little-endian, with no closing zero. The pipe exists on Windows only;
/// elsewhere the command is refused.
pub fn send_command(platform: HostPlatform, command: &str) -> (result: Result<Vec<u8>, String>)
    ensures
        match result {
            Ok(bytes) => platform == HostPlatform::Windows && bytes@ == units_le(
                encode_utf16(command@),
            ),
            Err(message) => platform != HostPlatform::Windows && message@
                == "Driver IPC is only available on Windows."@,
        },
{
    match platform {
        HostPlatform::Windows => Ok(to_wide_bytes(command)),
        _ => Err(String::from_str("Driver IPC is only available on Windows.")),
    }
}

/// A decoded answer without the NULs and then the white space at its ends.
pub fn clean_response(decoded: &str) -> (text: String)
    ensures
        text@ == cleaned(decoded@),
{
    let chars = chars_of(decoded);
    assert(chars@.subrange(0, chars@.len() as int) =~= chars@);
    let (start, end) = crate::text::strip_bounds(&chars, 0, chars.len(), CharClass::Nul);
    stripped_text(&chars, start, end, CharClass::Whitespace)
}

/// What the driver's answer says.
pub fn decode_response(bytes: &[u8]) -> (text: String)
    ensures
        text@ == response_text(bytes@),
{
    if bytes.len() >= 2 && bytes.len() % 2 == 0 {
        let units = wide_from_bytes(bytes);
        if let Some(value) = decode_utf16(units.as_slice()) {
            let trimmed = clean_response(value.as_str());
            if trimmed.as_str().unicode_len() > 0 {
                return trimmed;
            }
        }
    }
    let lossy = decode_utf8_lossy(bytes);
    clean_response(lossy.as_str())
}

/// Whether a decoded answer to a ping holds `PONG`, in any case of letters.
pub fn is_pong(answer: &str) -> (pong: bool)
    ensures
        pong == contains_text(ascii_uppercase(answer@), "PONG"@),
{
    let chars = chars_of(answer);
    assert(chars@.subrange(0, chars@.len() as int) =~= chars@);
    let upper = uppercase_range(&chars, 0, chars.len());
    chars_contain(&upper, "PONG")
}

/// Whether the driver answered a ping: it answered at all, and its answer
/// holds `PONG`.
pub fn ping_answered(response: &Option<Vec<u8>>) -> (alive: bool)
    ensures
        alive == match *response {
            Some(bytes) => contains_text(ascii_uppercase(response_text(bytes@)), "PONG"@),
            None => false,
        },
{
    match response {
        Some(bytes) => {
            let text = decode_response(bytes.as_slice());
            is_pong(text.as_str())
        },
        None => false,
    }
}

/// The driver's settings as it sent them, if it answered.
pub fn settings_answer(response: &Option<Vec<u8>>) -> (settings: Option<String>)
    ensures
        match *response {
            Some(bytes) => settings matches Some(text) && text@ == response_text(bytes@),
            None => settings is None,
        },
{
    match response {
        Some(bytes) => Some(decode_response(bytes.as_slice())),
        None => None,
    }
}

/// The driver's keyword for a switch that the host names by `option`.
pub open spec fn switch_keyword(option: Seq<char>) -> Option<Seq<char>> {
    if option == "logging"@ {
        Some("LOGGING"@)
    } else if option == "debug"@ {
        Some("LOG_DEBUG"@)
    } else if option == "hdr_plus"@ {
        Some("HDRPLUS"@)
    } else if option == "sdr10"@ {
        Some("SDR10"@)
    } else if option == "custom_edid"@ {
        Some("CUSTOMEDID"@)
    } else if option == "prevent_spoof"@ {
        Some("PREVENTSPOOF"@)
    } else if option == "cea_override"@ {
        Some("CEAOVERRIDE"@)
    } else if option == "hardware_cursor"@ {
        Some("HARDWARECURSOR"@)
    } else {
        None
    }
}

/// The command that sets the switch named by `option`; a name that is no
/// switch of the driver is refused.
pub fn set_toggle(option: &str, enabled: bool) -> (result: Result<DriverCommand, String>)
    ensures
        match switch_keyword(option@) {
            Some(keyword) => result matches Ok(command) && command.text@ == keyword + " "@
                + switch_text(enabled) && !command.expect_response,
            None => result matches Err(message) && message@ == "Unknown driver toggle option"@,
        },
{
    let name = chars_of(option);
    if chars_equal(&name, "logging") {
        Ok(set_logging(enabled))
    } else if chars_equal(&name, "debug") {
        Ok(set_debug_logging(enabled))
    } else if chars_equal(&name, "hdr_plus") {
        Ok(set_hdr_plus(enabled))
    } else if chars_equal(&name, "sdr10") {
        Ok(set_sdr10(enabled))
    } else if chars_equal(&name, "custom_edid") {
        Ok(set_custom_edid(enabled))
    } else if chars_equal(&name, "prevent_spoof") {
        Ok(set_prevent_spoof(enabled))
    } else if chars_equal(&name, "cea_override") {
        Ok(set_cea_override(enabled))
    } else if chars_equal(&name, "hardware_cursor") {
        Ok(set_hardware_cursor(enabled))
    } else {
        Err(String::from_str("Unknown driver toggle option"))
    }
}

} // verus!
