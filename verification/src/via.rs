//! VIA protocol packets: decoding a 32-byte request, writing the replies
//! that need nothing from the keyboard, and telling the keyboard context
//! what else to do.
//!
//! A packet is processed in place: the response starts as a copy of the
//! request, and each command overwrites only the bytes it changes.
//! Multi-byte values are big-endian, but for the keycodes of a keymap
//! buffer write, which are little-endian.

use vstd::prelude::*;

use crate::action::KeyBinding;
use crate::keyboard_macros::MACRO_SPACE_SIZE;
use crate::vial_lock::VialLock;
use crate::via_keycode::{from_via_keycode, spec_from_via, spec_to_via, to_via_keycode};
use rmk_types::protocol::vial::{ViaCommand, ViaKeyboardInfo};

verus! {

/// The VIA protocol version the keyboard speaks.
pub const VIA_PROTOCOL_VERSION: u16 = 0x0009;
/// The firmware version reported to VIA.
pub const VIA_FIRMWARE_VERSION: u32 = 0x0001;
/// Number of macros reported to VIA.
pub const VIA_MACRO_COUNT: u8 = 32;
/// Largest macro buffer chunk of one packet.
pub const MACRO_CHUNK_MAX: u8 = 28;
/// Marker of an unhandled request.
pub const VIA_UNHANDLED: u8 = 0xFF;

/// A VIA HID report: the request (`output_data`, host to keyboard) and the
/// response (`input_data`, keyboard to host).
#[derive(Clone, Copy, Debug, PartialEq, Eq)]
pub struct ViaReport {
    pub input_data: [u8; 32],
    pub output_data: [u8; 32],
}

/// VIA commands.
#[derive(Clone, Copy, Debug, PartialEq, Eq, Structural)]
pub enum ViaCmd {
    GetProtocolVersion,
    GetKeyboardValue,
    SetKeyboardValue,
    DynamicKeymapGetKeyCode,
    DynamicKeymapSetKeyCode,
    DynamicKeymapReset,
    CustomSetValue,
    CustomGetValue,
    CustomSave,
    EepromReset,
    BootloaderJump,
    DynamicKeymapMacroGetCount,
    DynamicKeymapMacroGetBufferSize,
    DynamicKeymapMacroGetBuffer,
    DynamicKeymapMacroSetBuffer,
    DynamicKeymapMacroReset,
    DynamicKeymapGetLayerCount,
    DynamicKeymapGetBuffer,
    DynamicKeymapSetBuffer,
    DynamicKeymapGetEncoder,
    DynamicKeymapSetEncoder,
    Vial,
    Unhandled,
}

/// The command of a command byte (`ViaCommand::from(u8)`): 0x01..=0x15 in
/// the order above, 0xFE Vial, anything else unhandled.
pub open spec fn spec_via_command(b: u8) -> ViaCmd {
    if b == 0x01 {
        ViaCmd::GetProtocolVersion
    } else if b == 0x02 {
        ViaCmd::GetKeyboardValue
    } else if b == 0x03 {
        ViaCmd::SetKeyboardValue
    } else if b == 0x04 {
        ViaCmd::DynamicKeymapGetKeyCode
    } else if b == 0x05 {
        ViaCmd::DynamicKeymapSetKeyCode
    } else if b == 0x06 {
        ViaCmd::DynamicKeymapReset
    } else if b == 0x07 {
        ViaCmd::CustomSetValue
    } else if b == 0x08 {
        ViaCmd::CustomGetValue
    } else if b == 0x09 {
        ViaCmd::CustomSave
    } else if b == 0x0A {
        ViaCmd::EepromReset
    } else if b == 0x0B {
        ViaCmd::BootloaderJump
    } else if b == 0x0C {
        ViaCmd::DynamicKeymapMacroGetCount
    } else if b == 0x0D {
        ViaCmd::DynamicKeymapMacroGetBufferSize
    } else if b == 0x0E {
        ViaCmd::DynamicKeymapMacroGetBuffer
    } else if b == 0x0F {
        ViaCmd::DynamicKeymapMacroSetBuffer
    } else if b == 0x10 {
        ViaCmd::DynamicKeymapMacroReset
    } else if b == 0x11 {
        ViaCmd::DynamicKeymapGetLayerCount
    } else if b == 0x12 {
        ViaCmd::DynamicKeymapGetBuffer
    } else if b == 0x13 {
        ViaCmd::DynamicKeymapSetBuffer
    } else if b == 0x14 {
        ViaCmd::DynamicKeymapGetEncoder
    } else if b == 0x15 {
        ViaCmd::DynamicKeymapSetEncoder
    } else if b == 0xFE {
        ViaCmd::Vial
    } else {
        ViaCmd::Unhandled
    }
}

/// The command byte that `ViaCommand::from(b)` keeps: the byte itself for
/// a known command (0x01..=0x15, 0xFE), 0xFF (`Unhandled`) otherwise.
pub open spec fn spec_command_byte(b: u8) -> u8 {
    if (0x01 <= b && b <= 0x15) || b == 0xFE {
        b
    } else {
        0xFF
    }
}

/// `rmk_types::protocol::vial::ViaCommand::from(u8)`, as its byte.
#[verifier::external_body]
fn via_command_byte(b: u8) -> (r: u8)
    ensures
        r == spec_command_byte(b),
{
    ViaCommand::from(b) as u8
}

fn via_command(b: u8) -> (r: ViaCmd)
    ensures
        r == spec_via_command(b),
{
    let c = via_command_byte(b);
    if c == 0x01 {
        ViaCmd::GetProtocolVersion
    } else if c == 0x02 {
        ViaCmd::GetKeyboardValue
    } else if c == 0x03 {
        ViaCmd::SetKeyboardValue
    } else if c == 0x04 {
        ViaCmd::DynamicKeymapGetKeyCode
    } else if c == 0x05 {
        ViaCmd::DynamicKeymapSetKeyCode
    } else if c == 0x06 {
        ViaCmd::DynamicKeymapReset
    } else if c == 0x07 {
        ViaCmd::CustomSetValue
    } else if c == 0x08 {
        ViaCmd::CustomGetValue
    } else if c == 0x09 {
        ViaCmd::CustomSave
    } else if c == 0x0A {
        ViaCmd::EepromReset
    } else if c == 0x0B {
        ViaCmd::BootloaderJump
    } else if c == 0x0C {
        ViaCmd::DynamicKeymapMacroGetCount
    } else if c == 0x0D {
        ViaCmd::DynamicKeymapMacroGetBufferSize
    } else if c == 0x0E {
        ViaCmd::DynamicKeymapMacroGetBuffer
    } else if c == 0x0F {
        ViaCmd::DynamicKeymapMacroSetBuffer
    } else if c == 0x10 {
        ViaCmd::DynamicKeymapMacroReset
    } else if c == 0x11 {
        ViaCmd::DynamicKeymapGetLayerCount
    } else if c == 0x12 {
        ViaCmd::DynamicKeymapGetBuffer
    } else if c == 0x13 {
        ViaCmd::DynamicKeymapSetBuffer
    } else if c == 0x14 {
        ViaCmd::DynamicKeymapGetEncoder
    } else if c == 0x15 {
        ViaCmd::DynamicKeymapSetEncoder
    } else if c == 0xFE {
        ViaCmd::Vial
    } else {
        ViaCmd::Unhandled
    }
}

/// Keyboard values of the get/set keyboard value commands.
#[derive(Clone, Copy, Debug, PartialEq, Eq, Structural)]
pub enum KeyboardInfo {
    Uptime,
    LayoutOptions,
    SwitchMatrixState,
    FirmwareVersion,
    DeviceIndication,
}

/// The keyboard value with id `b` (`ViaKeyboardInfo::try_from(u8)`): ids 1
/// to 5 in the order above.
pub open spec fn spec_keyboard_info(b: u8) -> Option<KeyboardInfo> {
    if b == 1 {
        Some(KeyboardInfo::Uptime)
    } else if b == 2 {
        Some(KeyboardInfo::LayoutOptions)
    } else if b == 3 {
        Some(KeyboardInfo::SwitchMatrixState)
    } else if b == 4 {
        Some(KeyboardInfo::FirmwareVersion)
    } else if b == 5 {
        Some(KeyboardInfo::DeviceIndication)
    } else {
        None
    }
}

/// `rmk_types::protocol::vial::ViaKeyboardInfo::try_from(u8)`, as the
/// value's id: `Some(b)` for ids 1 to 5, `None` otherwise.
#[verifier::external_body]
fn keyboard_info_id(b: u8) -> (r: Option<u8>)
    ensures
        r == (if 1 <= b && b <= 5 {
            Some(b)
        } else {
            None
        }),
{
    ViaKeyboardInfo::try_from(b).ok().map(|i| i as u8)
}

fn keyboard_info(b: u8) -> (r: Option<KeyboardInfo>)
    ensures
        r == spec_keyboard_info(b),
{
    match keyboard_info_id(b) {
        Some(1) => Some(KeyboardInfo::Uptime),
        Some(2) => Some(KeyboardInfo::LayoutOptions),
        Some(3) => Some(KeyboardInfo::SwitchMatrixState),
        Some(4) => Some(KeyboardInfo::FirmwareVersion),
        Some(5) => Some(KeyboardInfo::DeviceIndication),
        _ => None,
    }
}

/// What the keyboard context has to do to complete a packet.
#[derive(Clone, Debug)]
pub enum ViaRequest {
    /// Nothing: the response is complete.
    Done,
    /// Write the uptime in ms (`write_u32_be` at 2).
    Uptime,
    /// When unlocked, read the switch matrix into the response from byte 2
    /// and put its rows in wire order (`reverse_matrix_rows`).
    MatrixState,
    /// Store the layout options.
    SetLayoutOptions(u32),
    /// Reply with the binding of (layer, row, col) (`write_keycode`).
    GetKeyCode(u8, u8, u8),
    /// Set the binding of (layer, row, col).
    SetKeyCode(u8, u8, u8, KeyBinding),
    /// Reset the storage.
    ResetStorage,
    /// Jump to the bootloader.
    JumpToBootloader,
    /// Read `size` bytes of the macro buffer from `offset` into the
    /// response from byte 4.
    GetMacroBuffer(usize, usize),
    /// Write the request's `size` bytes from byte 4 into the macro buffer at
    /// `offset`; the flag says to reset the buffer first (offset 0).
    SetMacroBuffer(usize, usize, bool),
    /// Reply with the number of layers in byte 1.
    GetLayerCount,
    /// Reply with `count` bindings of the flat keymap from `start`
    /// (`write_keymap_buffer`).
    GetKeymapBuffer(usize, usize),
    /// Set the bindings of the flat keymap from `offset` on.
    SetKeymapBuffer(usize, Vec<KeyBinding>),
    /// A Vial command: handled by the Vial protocol.
    Vial,
}

/// `s` with the big-endian bytes of `v` at `at`.
pub open spec fn with_u16_be(s: Seq<u8>, at: int, v: u16) -> Seq<u8> {
    s.update(at, (v >> 8u16) as u8).update(at + 1, (v & 0xFF) as u8)
}

/// `s` with the big-endian bytes of `v` at `at`.
pub open spec fn with_u32_be(s: Seq<u8>, at: int, v: u32) -> Seq<u8> {
    s.update(at, (v >> 24u32) as u8).update(at + 1, ((v >> 16u32) & 0xFF) as u8).update(
        at + 2,
        ((v >> 8u32) & 0xFF) as u8,
    ).update(at + 3, (v & 0xFF) as u8)
}

/// The big-endian `u16` at `at`.
pub open spec fn u16_be(s: Seq<u8>, at: int) -> u16 {
    ((s[at] as u16) << 8u16 | (s[at + 1] as u16)) as u16
}

/// The little-endian `u16` at `at`.
pub open spec fn u16_le(s: Seq<u8>, at: int) -> u16 {
    ((s[at + 1] as u16) << 8u16 | (s[at] as u16)) as u16
}

/// The big-endian `u32` at `at`.
pub open spec fn u32_be(s: Seq<u8>, at: int) -> u32 {
    ((s[at] as u32) << 24u32 | (s[at + 1] as u32) << 16u32 | (s[at + 2] as u32) << 8u32 | (s[at
        + 3] as u32)) as u32
}

/// Writes `v` big-endian at `at` of the response.
pub fn write_u16_be(data: &mut [u8; 32], at: usize, v: u16)
    requires
        at + 2 <= 32,
    ensures
        final(data)@ == with_u16_be(old(data)@, at as int, v),
{
    data[at] = (v >> 8u16) as u8;
    data[at + 1] = (v & 0xFF) as u8;
}

/// Writes `v` big-endian at `at` of the response.
pub fn write_u32_be(data: &mut [u8; 32], at: usize, v: u32)
    requires
        at + 4 <= 32,
    ensures
        final(data)@ == with_u32_be(old(data)@, at as int, v),
{
    data[at] = (v >> 24u32) as u8;
    data[at + 1] = ((v >> 16u32) & 0xFF) as u8;
    data[at + 2] = ((v >> 8u32) & 0xFF) as u8;
    data[at + 3] = (v & 0xFF) as u8;
}

fn read_u16_be(data: &[u8; 32], at: usize) -> (r: u16)
    requires
        at + 2 <= 32,
    ensures
        r == u16_be(data@, at as int),
{
    (data[at] as u16) << 8u16 | (data[at + 1] as u16)
}

fn read_u16_le(data: &[u8; 32], at: usize) -> (r: u16)
    requires
        at + 2 <= 32,
    ensures
        r == u16_le(data@, at as int),
{
    (data[at + 1] as u16) << 8u16 | (data[at] as u16)
}

fn read_u32_be(data: &[u8; 32], at: usize) -> (r: u32)
    requires
        at + 4 <= 32,
    ensures
        r == u32_be(data@, at as int),
{
    (data[at] as u32) << 24u32 | (data[at + 1] as u32) << 16u32 | (data[at + 2] as u32) << 8u32 | (
    data[at + 3] as u32)
}

/// Packets whose handling stays within the packet: a keymap buffer read
/// must fit its replies in the packet (`size / 2 <= 14`), a keymap buffer
/// write its keycodes (`size <= 14`).
pub open spec fn packet_ok(out: Seq<u8>) -> bool {
    &&& spec_via_command(out[0]) == ViaCmd::DynamicKeymapGetBuffer ==> out[3] / 2 <= 14
    &&& spec_via_command(out[0]) == ViaCmd::DynamicKeymapSetBuffer ==> out[3] <= 14
}

/// The bindings of keymap buffer write with `n` keycodes (little-endian,
/// from byte 4).
pub open spec fn keymap_write_bindings(out: Seq<u8>, n: int) -> Seq<KeyBinding> {
    Seq::new(n as nat, |i: int| spec_from_via(u16_le(out, 4 + 2 * i)))
}

/// `after` and `r` are the report and request after processing the
/// packet `before` with command `cmd`.
pub open spec fn via_processed(cmd: ViaCmd, before: ViaReport, after: ViaReport, r: ViaRequest) -> bool {
    &&& after.output_data == before.output_data
    &&& {
        let out = before.output_data@;
        let inp = before.input_data@;
        let fin = after.input_data@;
        match cmd {
            ViaCmd::GetProtocolVersion => fin == with_u16_be(inp, 1, VIA_PROTOCOL_VERSION) && r is Done,
            ViaCmd::GetKeyboardValue => match spec_keyboard_info(out[1]) {
                Some(KeyboardInfo::Uptime) => fin == inp && r is Uptime,
                Some(KeyboardInfo::LayoutOptions) => fin == with_u32_be(inp, 2, 0) && r is Done,
                Some(KeyboardInfo::SwitchMatrixState) => fin == inp && r is MatrixState,
                Some(KeyboardInfo::FirmwareVersion) => fin == with_u32_be(inp, 2, VIA_FIRMWARE_VERSION)
                    && r is Done,
                _ => fin == inp && r is Done,
            },
            ViaCmd::SetKeyboardValue => fin == inp && match spec_keyboard_info(out[1]) {
                Some(KeyboardInfo::LayoutOptions) => r matches ViaRequest::SetLayoutOptions(v) && v
                    == u32_be(out, 2),
                _ => r is Done,
            },
            ViaCmd::DynamicKeymapGetKeyCode => fin == inp && (r matches ViaRequest::GetKeyCode(l, row, col)
                && l == out[1] && row == out[2] && col == out[3]),
            ViaCmd::DynamicKeymapSetKeyCode => fin == inp && (r matches ViaRequest::SetKeyCode(
                l,
                row,
                col,
                b,
            ) && l == out[1] && row == out[2] && col == out[3] && b == spec_from_via(u16_be(out, 4))),
            ViaCmd::EepromReset => fin == inp && r is ResetStorage,
            ViaCmd::BootloaderJump => fin == inp && r is JumpToBootloader,
            ViaCmd::DynamicKeymapMacroGetCount => fin == inp.update(1, VIA_MACRO_COUNT) && r is Done,
            ViaCmd::DynamicKeymapMacroGetBufferSize => fin == inp.update(1, 1u8).update(2, 0u8) && r is Done,
            ViaCmd::DynamicKeymapMacroGetBuffer => if out[3] <= MACRO_CHUNK_MAX {
                fin == inp && (r matches ViaRequest::GetMacroBuffer(offset, size) && offset == u16_be(out, 1)
                    && size == out[3])
            } else {
                fin == inp.update(0, VIA_UNHANDLED) && r is Done
            },
            ViaCmd::DynamicKeymapMacroSetBuffer => if out[3] <= MACRO_CHUNK_MAX {
                fin == inp && (r matches ViaRequest::SetMacroBuffer(offset, size, reset) && offset == u16_be(
                    out,
                    1,
                ) && size == out[3] && reset == (offset == 0))
            } else {
                fin == inp.update(0, VIA_UNHANDLED) && r is Done
            },
            ViaCmd::DynamicKeymapGetLayerCount => fin == inp && r is GetLayerCount,
            ViaCmd::DynamicKeymapGetBuffer => fin == inp && (r matches ViaRequest::GetKeymapBuffer(start, count)
                && start == u16_be(out, 1) / 2 && count == out[3] / 2),
            ViaCmd::DynamicKeymapSetBuffer => fin == inp && (r matches ViaRequest::SetKeymapBuffer(offset, bs)
                && offset == u16_be(out, 1) && bs@ == keymap_write_bindings(out, out[3] as int)),
            ViaCmd::Vial => fin == inp && r is Vial,
            ViaCmd::Unhandled => fin == inp.update(0, VIA_UNHANDLED) && r is Done,
            _ => fin == inp && r is Done,
        }
    }
}

/// Processes a VIA packet for command `cmd`: writes the replies that need
/// nothing from the keyboard and returns what the keyboard context must do.
pub fn process_via_command(cmd: ViaCmd, report: &mut ViaReport) -> (r: ViaRequest)
    requires
        cmd == ViaCmd::DynamicKeymapGetBuffer ==> old(report).output_data@[3] / 2 <= 14,
        cmd == ViaCmd::DynamicKeymapSetBuffer ==> old(report).output_data@[3] <= 14,
    ensures
        via_processed(cmd, *old(report), *final(report), r),
{
    match cmd {
        ViaCmd::GetProtocolVersion => {
            write_u16_be(&mut report.input_data, 1, VIA_PROTOCOL_VERSION);
            ViaRequest::Done
        },
        ViaCmd::GetKeyboardValue => match keyboard_info(report.output_data[1]) {
            Some(KeyboardInfo::Uptime) => ViaRequest::Uptime,
            Some(KeyboardInfo::LayoutOptions) => {
                write_u32_be(&mut report.input_data, 2, 0);
                ViaRequest::Done
            },
            Some(KeyboardInfo::SwitchMatrixState) => ViaRequest::MatrixState,
            Some(KeyboardInfo::FirmwareVersion) => {
                write_u32_be(&mut report.input_data, 2, VIA_FIRMWARE_VERSION);
                ViaRequest::Done
            },
            _ => ViaRequest::Done,
        },
        ViaCmd::SetKeyboardValue => match keyboard_info(report.output_data[1]) {
            Some(KeyboardInfo::LayoutOptions) => ViaRequest::SetLayoutOptions(read_u32_be(&report.output_data, 2)),
            _ => ViaRequest::Done,
        },
        ViaCmd::DynamicKeymapGetKeyCode => ViaRequest::GetKeyCode(
            report.output_data[1],
            report.output_data[2],
            report.output_data[3],
        ),
        ViaCmd::DynamicKeymapSetKeyCode => {
            let keycode = read_u16_be(&report.output_data, 4);
            ViaRequest::SetKeyCode(
                report.output_data[1],
                report.output_data[2],
                report.output_data[3],
                from_via_keycode(keycode),
            )
        },
        ViaCmd::EepromReset => ViaRequest::ResetStorage,
        ViaCmd::BootloaderJump => ViaRequest::JumpToBootloader,
        ViaCmd::DynamicKeymapMacroGetCount => {
            report.input_data[1] = VIA_MACRO_COUNT;
            ViaRequest::Done
        },
        ViaCmd::DynamicKeymapMacroGetBufferSize => {
            report.input_data[1] = (MACRO_SPACE_SIZE / 256) as u8;
            report.input_data[2] = (MACRO_SPACE_SIZE % 256) as u8;
            ViaRequest::Done
        },
        ViaCmd::DynamicKeymapMacroGetBuffer => {
            let offset = read_u16_be(&report.output_data, 1) as usize;
            let size = report.output_data[3];
            if size <= MACRO_CHUNK_MAX {
                ViaRequest::GetMacroBuffer(offset, size as usize)
            } else {
                report.input_data[0] = VIA_UNHANDLED;
                ViaRequest::Done
            }
        },
        ViaCmd::DynamicKeymapMacroSetBuffer => {
            let offset = read_u16_be(&report.output_data, 1);
            let size = report.output_data[3];
            if size <= MACRO_CHUNK_MAX {
                ViaRequest::SetMacroBuffer(offset as usize, size as usize, offset == 0)
            } else {
                report.input_data[0] = VIA_UNHANDLED;
                ViaRequest::Done
            }
        },
        ViaCmd::DynamicKeymapGetLayerCount => ViaRequest::GetLayerCount,
        ViaCmd::DynamicKeymapGetBuffer => {
            let offset = read_u16_be(&report.output_data, 1);
            let size = report.output_data[3];
            ViaRequest::GetKeymapBuffer((offset / 2) as usize, (size / 2) as usize)
        },
        ViaCmd::DynamicKeymapSetBuffer => {
            let offset = read_u16_be(&report.output_data, 1);
            let size = report.output_data[3] as usize;
            let mut bindings: Vec<KeyBinding> = Vec::new();
            let mut i: usize = 0;
            while i < size
                invariant
                    size <= 14,
                    i <= size,
                    report.output_data == old(report).output_data,
                    report.input_data == old(report).input_data,
                    bindings@ =~= keymap_write_bindings(report.output_data@, i as int),
                decreases size - i,
            {
                let kc = read_u16_le(&report.output_data, 4 + 2 * i);
                bindings.push(from_via_keycode(kc));
                i = i + 1;
            }
            ViaRequest::SetKeymapBuffer(offset as usize, bindings)
        },
        ViaCmd::Vial => ViaRequest::Vial,
        ViaCmd::Unhandled => {
            report.input_data[0] = VIA_UNHANDLED;
            ViaRequest::Done
        },
        _ => ViaRequest::Done,
    }
}

/// The VIA/Vial service of a keyboard: VIA packets and the Vial unlock
/// gate.
pub struct VialService {
    pub locker: VialLock,
}

impl VialService {
    /// A service whose unlock gate uses these unlock keys; it starts
    /// locked.
    pub fn new(unlock_keys: Vec<(u8, u8)>) -> (r: Self)
        ensures
            !r.locker.unlocked,
            !r.locker.unlocking,
            r.locker.unlock_keys@ == unlock_keys@,
    {
        VialService { locker: VialLock::new(unlock_keys) }
    }

    /// Processes a VIA packet: decodes its command byte and proceeds as
    /// `process_via_command`.
    pub fn process_via_packet(&self, report: &mut ViaReport) -> (r: ViaRequest)
        requires
            packet_ok(old(report).output_data@),
        ensures
            via_processed(spec_via_command(old(report).output_data@[0]), *old(report), *final(report), r),
    {
        let cmd = via_command(report.output_data[0]);
        process_via_command(cmd, report)
    }
}

/// Writes the VIA keycode of `binding` (big-endian at 4), the reply of a
/// key code read.
pub fn write_keycode(report: &mut ViaReport, binding: KeyBinding)
    ensures
        final(report).output_data == old(report).output_data,
        final(report).input_data@ == with_u16_be(old(report).input_data@, 4, spec_to_via(binding)),
{
    write_u16_be(&mut report.input_data, 4, to_via_keycode(binding));
}

/// The response after a keymap buffer read replied with the first `n`
/// bindings.
pub open spec fn with_keymap_buffer(s: Seq<u8>, bindings: Seq<KeyBinding>, n: int) -> Seq<u8>
    decreases n,
{
    if n <= 0 {
        s
    } else {
        with_u16_be(with_keymap_buffer(s, bindings, n - 1), 4 + 2 * (n - 1), spec_to_via(bindings[n - 1]))
    }
}

/// Writes the VIA keycodes of `bindings` (big-endian, from byte 4), the
/// reply of a keymap buffer read.
pub fn write_keymap_buffer(report: &mut ViaReport, bindings: &Vec<KeyBinding>)
    requires
        bindings@.len() <= 14,
    ensures
        final(report).output_data == old(report).output_data,
        final(report).input_data@ == with_keymap_buffer(
            old(report).input_data@,
            bindings@,
            bindings@.len() as int,
        ),
{
    let mut i: usize = 0;
    while i < bindings.len()
        invariant
            bindings@.len() <= 14,
            i <= bindings@.len(),
            report.output_data == old(report).output_data,
            report.input_data@ == with_keymap_buffer(old(report).input_data@, bindings@, i as int),
        decreases bindings@.len() - i,
    {
        write_u16_be(&mut report.input_data, 4 + 2 * i, to_via_keycode(bindings[i]));
        i = i + 1;
    }
}

/// First byte of row `m` of `row_len` bytes.
pub open spec fn row_start(m: int, row_len: int) -> int {
    m * row_len
}

/// The byte after row `m` of `row_len` bytes, within the first `len`.
pub open spec fn row_end(m: int, row_len: int, len: int) -> int {
    if m * row_len + row_len < len {
        m * row_len + row_len
    } else {
        len
    }
}

/// `after` is `before` with the bytes of `[c, e)` in reverse order.
pub open spec fn reversed_range(before: Seq<u8>, after: Seq<u8>, c: int, e: int) -> bool {
    &&& after.len() == before.len()
    &&& forall|j: int| c <= j < e ==> after[j] == before[c + e - 1 - j]
    &&& forall|j: int| 0 <= j < after.len() && !(c <= j < e) ==> after[j] == before[j]
}

fn reverse_range(bitmap: &mut [u8], c: usize, e: usize)
    requires
        c <= e <= old(bitmap)@.len(),
    ensures
        reversed_range(old(bitmap)@, final(bitmap)@, c as int, e as int),
{
    if c == e {
        return;
    }
    let mut a: usize = c;
    let mut b: usize = e - 1;
    while a < b
        invariant
            c <= a,
            b < e,
            a <= b + 1,
            e <= bitmap@.len(),
            a + b == c + e - 1,
            bitmap@.len() == old(bitmap)@.len(),
            forall|j: int| c <= j < a ==> bitmap@[j] == old(bitmap)@[c + e - 1 - j],
            forall|j: int| b < j < e ==> bitmap@[j] == old(bitmap)@[c + e - 1 - j],
            forall|j: int| a <= j <= b ==> bitmap@[j] == old(bitmap)@[j],
            forall|j: int| 0 <= j < bitmap@.len() && !(c <= j < e) ==> bitmap@[j] == old(bitmap)@[j],
        decreases e - a,
    {
        let x = bitmap[a];
        let y = bitmap[b];
        bitmap[a] = y;
        bitmap[b] = x;
        a = a + 1;
        b = b - 1;
    }
}

/// `after` holds the first `len` bytes of `before` with each row of
/// `row_len` bytes reversed, and the rest unchanged.
pub open spec fn rows_reversed(before: Seq<u8>, after: Seq<u8>, row_len: int, len: int) -> bool {
    &&& after.len() == before.len()
    &&& forall|m: int, j: int|
        #![trigger row_start(m, row_len), after[j]]
        0 <= m && row_start(m, row_len) <= j < row_end(m, row_len, len) ==> after[j] == before[row_start(
            m,
            row_len,
        ) + row_end(m, row_len, len) - 1 - j]
    &&& forall|j: int| len <= j < before.len() ==> after[j] == before[j]
}

/// Puts the matrix state read into `bitmap` in Vial's wire order: each
/// row of `cols` bits takes `ceil(cols / 8)` bytes, and Vial wants each
/// row's bytes big-endian, so rows of more than one byte are reversed
/// (within the first `rows` rows that fit).
pub fn reverse_matrix_rows(bitmap: &mut [u8], rows: usize, cols: usize)
    requires
        cols <= 0xFFFF,
        rows <= 0xFFFF,
    ensures
        ({
            let row_len = (cols + 7) / 8;
            let len = if rows * row_len < old(bitmap)@.len() {
                rows * row_len
            } else {
                old(bitmap)@.len() as int
            };
            &&& row_len <= 1 ==> final(bitmap)@ == old(bitmap)@
            &&& row_len > 1 ==> rows_reversed(old(bitmap)@, final(bitmap)@, row_len, len)
        }),
{
    let row_len = (cols + 7) / 8;
    if row_len <= 1 {
        return;
    }
    proof {
        assert(rows * row_len <= 0xFFFF * 0x2000) by (nonlinear_arith)
            requires
                rows <= 0xFFFF,
                row_len <= 0x2000,
        ;
    }
    let total = rows * row_len;
    let len = if total < bitmap.len() {
        total
    } else {
        bitmap.len()
    };
    let mut c: usize = 0;
    let ghost mut m: int = 0;
    while c < len
        invariant
            1 < row_len <= 0x2000,
            len <= bitmap@.len(),
            len <= 0xFFFF * 0x2000,
            bitmap@.len() == old(bitmap)@.len(),
            c == m * row_len,
            m >= 0,
            c <= len + row_len,
            forall|m2: int, j: int|
                #![trigger row_start(m2, row_len as int), bitmap@[j]]
                0 <= m2 < m && row_start(m2, row_len as int) <= j < row_end(m2, row_len as int, len as int)
                    ==> bitmap@[j] == old(bitmap)@[row_start(m2, row_len as int) + row_end(
                    m2,
                    row_len as int,
                    len as int,
                ) - 1 - j],
            forall|j: int| c <= j < bitmap@.len() ==> bitmap@[j] == old(bitmap)@[j],
            forall|j: int| len <= j < bitmap@.len() ==> bitmap@[j] == old(bitmap)@[j],
        decreases len + row_len - c,
    {
        let e = if c + row_len < len {
            c + row_len
        } else {
            len
        };
        let ghost before = bitmap@;
        reverse_range(bitmap, c, e);
        proof {
            assert forall|m2: int, j: int|
                #![trigger row_start(m2, row_len as int), bitmap@[j]]
                0 <= m2 < m + 1 && row_start(m2, row_len as int) <= j < row_end(m2, row_len as int, len as int)
                    implies bitmap@[j] == old(bitmap)@[row_start(m2, row_len as int) + row_end(
                m2,
                row_len as int,
                len as int,
            ) - 1 - j] by {
                if m2 < m {
                    assert(m2 * row_len + row_len <= m * row_len) by (nonlinear_arith)
                        requires
                            m2 + 1 <= m,
                            row_len > 0,
                    ;
                    assert(before[j] == old(bitmap)@[row_start(m2, row_len as int) + row_end(
                        m2,
                        row_len as int,
                        len as int,
                    ) - 1 - j]);
                }
            }
        }
        c = c + row_len;
        proof {
            assert(c == (m + 1) * row_len) by (nonlinear_arith)
                requires
                    c == m * row_len + row_len,
            ;
            m = m + 1;
        }
    }
    proof {
        assert forall|m2: int, j: int|
            #![trigger row_start(m2, row_len as int), bitmap@[j]]
            0 <= m2 && row_start(m2, row_len as int) <= j < row_end(m2, row_len as int, len as int) implies bitmap@[j]
                == old(bitmap)@[row_start(m2, row_len as int) + row_end(m2, row_len as int, len as int) - 1
                - j] by {
            if m2 >= m {
                assert(m2 * row_len >= m * row_len) by (nonlinear_arith)
                    requires
                        m2 >= m,
                        row_len > 0,
                ;
            }
        }
    }
}

/// A key code written with the set key code command and read back with the
/// get key code command replies with the written code, when it is a
/// canonical keycode: the keymap keeps what the host writes.
pub proof fn lemma_set_then_get_keycode(report: ViaReport, k: u16)
    requires
        crate::via_keycode::via_canonical(k),
    ensures
        u16_be(with_u16_be(report.input_data@, 4, spec_to_via(spec_from_via(k))), 4) == k,
{
    crate::via_keycode::lemma_via_decode_encode(k);
    let v = spec_to_via(spec_from_via(k));
    assert(((((v >> 8u16) as u8) as u16) << 8u16 | (((v & 0xFF) as u8) as u16)) as u16 == v) by (bit_vector);
}

} // verus!
