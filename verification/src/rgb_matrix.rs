//! VIA Protocol 11 RGB Matrix compatibility over the keyboard's designated
//! background lighting.
//!
//! This is only a protocol adapter: it owns no renderer or lighting state.
//! A request packet is parsed into an operation, the operation goes to the
//! authoritative lighting control, and the control's reply completes the
//! response packet. Unsupported operations and failed control requests are
//! answered with VIA's unhandled marker, without an adapter-side fallback.

use vstd::prelude::*;

verus! {

/// The custom-value channel of the RGB matrix.
pub const CHANNEL: u8 = 3;

/// Command byte: set a value.
pub const COMMAND_SET: u8 = 0x07;
/// Command byte: get a value.
pub const COMMAND_GET: u8 = 0x08;
/// Command byte: save the values.
pub const COMMAND_SAVE: u8 = 0x09;
/// Marker written over the command byte of a request that was not handled.
pub const COMMAND_UNHANDLED: u8 = 0xFF;

/// Value id: brightness.
pub const VALUE_BRIGHTNESS: u8 = 1;
/// Value id: effect.
pub const VALUE_EFFECT: u8 = 2;
/// Value id: effect speed.
pub const VALUE_SPEED: u8 = 3;
/// Value id: color (hue, saturation).
pub const VALUE_COLOR: u8 = 4;

/// Effect id: off.
pub const EFFECT_OFF: u8 = 0;
/// Effect id: solid color.
pub const EFFECT_SOLID: u8 = 1;
/// Effect id: breathing.
pub const EFFECT_BREATHE: u8 = 5;

/// Background lighting modes.
#[derive(Copy, Clone, Debug, Eq, PartialEq, Structural)]
pub enum BackgroundMode {
    Solid,
    Breathe,
}

/// The state of the background lighting.
#[derive(Copy, Clone, Debug, Eq, PartialEq, Structural)]
pub struct BackgroundState {
    pub enabled: bool,
    pub hue: u8,
    pub saturation: u8,
    pub value: u8,
    pub speed: u8,
    pub mode: BackgroundMode,
}

/// A change of some fields of the background state, applied atomically by
/// the lighting control.
#[derive(Copy, Clone, Debug, Eq, PartialEq, Structural)]
pub struct BackgroundPatch {
    pub enabled: Option<bool>,
    pub hue: Option<u8>,
    pub saturation: Option<u8>,
    pub value: Option<u8>,
    pub speed: Option<u8>,
    pub mode: Option<BackgroundMode>,
}

/// The patch that changes nothing.
pub open spec fn empty_patch() -> BackgroundPatch {
    BackgroundPatch { enabled: None, hue: None, saturation: None, value: None, speed: None, mode: None }
}

impl Default for BackgroundPatch {
    fn default() -> (r: Self)
        ensures
            r == empty_patch(),
    {
        BackgroundPatch { enabled: None, hue: None, saturation: None, value: None, speed: None, mode: None }
    }
}

/// Lighting control of a Vial service that was not bound to lighting:
/// every request fails with `UnsupportedError`.
#[derive(Copy, Clone, Debug, Eq, PartialEq, Structural, Default)]
pub struct Unsupported;

/// The error of the `Unsupported` lighting control.
#[derive(Copy, Clone, Debug, Eq, PartialEq, Structural)]
pub struct UnsupportedError;

impl Unsupported {
    /// Reading the background is not supported.
    pub fn read_background(&self) -> (r: Result<BackgroundState, UnsupportedError>)
        ensures
            r == Err::<BackgroundState, UnsupportedError>(UnsupportedError),
    {
        Err(UnsupportedError)
    }

    /// Patching the background is not supported.
    pub fn patch_background(&self, patch: BackgroundPatch) -> (r: Result<BackgroundState, UnsupportedError>)
        ensures
            r == Err::<BackgroundState, UnsupportedError>(UnsupportedError),
    {
        Err(UnsupportedError)
    }

    /// Saving the background is not supported.
    pub fn save_background(&self) -> (r: Result<(), UnsupportedError>)
        ensures
            r == Err::<(), UnsupportedError>(UnsupportedError),
    {
        Err(UnsupportedError)
    }
}

/// Errors of the lighting engine's mailbox control.
#[derive(Copy, Clone, Debug, Eq, PartialEq, Structural)]
pub enum Error<E> {
    /// The lighting engine refused or failed the request.
    Lighting(E),
    /// No durable save path exists.
    PersistenceUnavailable,
}

/// Live control through the lighting engine's mailbox `M`. Persistence is
/// unavailable until there is a correlated durable completion path.
pub struct StandardControl<'a, M> {
    pub mailbox: &'a M,
}

impl<'a, M> StandardControl<'a, M> {
    /// Control through `mailbox`.
    pub fn new(mailbox: &'a M) -> (r: Self)
        ensures
            r.mailbox == mailbox,
    {
        StandardControl { mailbox }
    }

    /// Saving is not claimed: it always fails with `PersistenceUnavailable`.
    pub fn save_background<E>(&self) -> (r: Result<(), Error<E>>)
        ensures
            r matches Err(e) && e == Error::<E>::PersistenceUnavailable,
    {
        Err(Error::PersistenceUnavailable)
    }
}

/// A value of the RGB matrix channel.
#[derive(Copy, Clone, Debug, Eq, PartialEq, Structural)]
pub enum Value {
    Brightness,
    Effect,
    Speed,
    Color,
}

/// What a request asks of the lighting control.
#[derive(Copy, Clone, Debug, Eq, PartialEq, Structural)]
pub enum Operation {
    Get(Value),
    Patch(BackgroundPatch),
    Save,
}

/// The value with wire id `id`.
pub open spec fn spec_value(id: u8) -> Result<Value, ()> {
    if id == VALUE_BRIGHTNESS {
        Ok(Value::Brightness)
    } else if id == VALUE_EFFECT {
        Ok(Value::Effect)
    } else if id == VALUE_SPEED {
        Ok(Value::Speed)
    } else if id == VALUE_COLOR {
        Ok(Value::Color)
    } else {
        Err(())
    }
}

/// The value with wire id `id`.
pub fn value(id: u8) -> (r: Result<Value, ()>)
    ensures
        r == spec_value(id),
{
    if id == VALUE_BRIGHTNESS {
        Ok(Value::Brightness)
    } else if id == VALUE_EFFECT {
        Ok(Value::Effect)
    } else if id == VALUE_SPEED {
        Ok(Value::Speed)
    } else if id == VALUE_COLOR {
        Ok(Value::Color)
    } else {
        Err(())
    }
}

/// The patch of a set request for `v` with data bytes `req[3..]`.
pub open spec fn spec_set_patch(v: Value, req: Seq<u8>) -> Result<BackgroundPatch, ()> {
    if req.len() < 4 {
        Err(())
    } else {
        let first = req[3];
        match v {
            Value::Brightness => Ok(BackgroundPatch { value: Some(first), ..empty_patch() }),
            Value::Effect => if first == EFFECT_OFF {
                Ok(BackgroundPatch { enabled: Some(false), ..empty_patch() })
            } else if first == EFFECT_SOLID {
                Ok(BackgroundPatch { enabled: Some(true), mode: Some(BackgroundMode::Solid), ..empty_patch() })
            } else if first == EFFECT_BREATHE {
                Ok(BackgroundPatch { enabled: Some(true), mode: Some(BackgroundMode::Breathe), ..empty_patch() })
            } else {
                Err(())
            },
            Value::Speed => Ok(BackgroundPatch { speed: Some(first), ..empty_patch() }),
            Value::Color => if req.len() < 5 {
                Err(())
            } else {
                Ok(BackgroundPatch { hue: Some(first), saturation: Some(req[4]), ..empty_patch() })
            },
        }
    }
}

/// The operation a request packet asks for: byte 0 is the command, byte 1
/// the channel (must be `CHANNEL`), byte 2 the value id, then the data.
pub open spec fn spec_parse(req: Seq<u8>) -> Result<Operation, ()> {
    if req.len() < 2 || req[1] != CHANNEL {
        Err(())
    } else {
        let command = req[0];
        if command == COMMAND_GET {
            if req.len() < 3 {
                Err(())
            } else {
                match spec_value(req[2]) {
                    Ok(v) => Ok(Operation::Get(v)),
                    Err(_) => Err(()),
                }
            }
        } else if command == COMMAND_SAVE {
            Ok(Operation::Save)
        } else if command == COMMAND_SET {
            if req.len() < 3 {
                Err(())
            } else {
                match spec_value(req[2]) {
                    Ok(v) => match spec_set_patch(v, req) {
                        Ok(p) => Ok(Operation::Patch(p)),
                        Err(_) => Err(()),
                    },
                    Err(_) => Err(()),
                }
            }
        } else {
            Err(())
        }
    }
}

fn set_patch(v: Value, request: &[u8]) -> (r: Result<BackgroundPatch, ()>)
    ensures
        r == spec_set_patch(v, request@),
{
    if request.len() < 4 {
        return Err(());
    }
    let first = request[3];
    match v {
        Value::Brightness => Ok(BackgroundPatch { value: Some(first), ..BackgroundPatch::default() }),
        Value::Effect => {
            if first == EFFECT_OFF {
                Ok(BackgroundPatch { enabled: Some(false), ..BackgroundPatch::default() })
            } else if first == EFFECT_SOLID {
                Ok(
                    BackgroundPatch {
                        enabled: Some(true),
                        mode: Some(BackgroundMode::Solid),
                        ..BackgroundPatch::default()
                    },
                )
            } else if first == EFFECT_BREATHE {
                Ok(
                    BackgroundPatch {
                        enabled: Some(true),
                        mode: Some(BackgroundMode::Breathe),
                        ..BackgroundPatch::default()
                    },
                )
            } else {
                Err(())
            }
        },
        Value::Speed => Ok(BackgroundPatch { speed: Some(first), ..BackgroundPatch::default() }),
        Value::Color => {
            if request.len() < 5 {
                Err(())
            } else {
                Ok(BackgroundPatch { hue: Some(first), saturation: Some(request[4]), ..BackgroundPatch::default() })
            }
        },
    }
}

/// Parses a request packet into an operation; `Err` for anything the
/// adapter does not support.
pub fn parse(request: &[u8]) -> (r: Result<Operation, ()>)
    ensures
        r == spec_parse(request@),
{
    if request.len() < 2 || request[1] != CHANNEL {
        return Err(());
    }
    let command = request[0];
    if command == COMMAND_GET {
        if request.len() < 3 {
            return Err(());
        }
        match value(request[2]) {
            Ok(v) => Ok(Operation::Get(v)),
            Err(_) => Err(()),
        }
    } else if command == COMMAND_SAVE {
        Ok(Operation::Save)
    } else if command == COMMAND_SET {
        if request.len() < 3 {
            return Err(());
        }
        match value(request[2]) {
            Ok(v) => match set_patch(v, request) {
                Ok(p) => Ok(Operation::Patch(p)),
                Err(_) => Err(()),
            },
            Err(_) => Err(()),
        }
    } else {
        Err(())
    }
}

/// The wire id of the effect of a state.
pub open spec fn spec_effect_id(state: BackgroundState) -> u8 {
    if !state.enabled {
        EFFECT_OFF
    } else {
        match state.mode {
            BackgroundMode::Solid => EFFECT_SOLID,
            BackgroundMode::Breathe => EFFECT_BREATHE,
        }
    }
}

/// The response after writing value `v` of `state` into `resp`, or `Err`
/// when the response is too short for it.
pub open spec fn spec_write_value(resp: Seq<u8>, v: Value, state: BackgroundState) -> Result<Seq<u8>, ()> {
    match v {
        Value::Brightness => if resp.len() < 4 {
            Err(())
        } else {
            Ok(resp.update(3, state.value))
        },
        Value::Effect => if resp.len() < 4 {
            Err(())
        } else {
            Ok(resp.update(3, spec_effect_id(state)))
        },
        Value::Speed => if resp.len() < 4 {
            Err(())
        } else {
            Ok(resp.update(3, state.speed))
        },
        Value::Color => if resp.len() < 5 {
            Err(())
        } else {
            Ok(resp.update(3, state.hue).update(4, state.saturation))
        },
    }
}

/// Writes value `v` of `state` into the response's data bytes.
pub fn write_value(response: &mut [u8], v: Value, state: BackgroundState) -> (r: Result<(), ()>)
    ensures
        spec_write_value(old(response)@, v, state) matches Ok(s) ==> r is Ok && final(response)@ == s,
        spec_write_value(old(response)@, v, state) is Err ==> r is Err && final(response)@ == old(response)@,
{
    match v {
        Value::Brightness => {
            if response.len() < 4 {
                return Err(());
            }
            response[3] = state.value;
        },
        Value::Effect => {
            if response.len() < 4 {
                return Err(());
            }
            response[3] = if !state.enabled {
                EFFECT_OFF
            } else {
                match state.mode {
                    BackgroundMode::Solid => EFFECT_SOLID,
                    BackgroundMode::Breathe => EFFECT_BREATHE,
                }
            };
        },
        Value::Speed => {
            if response.len() < 4 {
                return Err(());
            }
            response[3] = state.speed;
        },
        Value::Color => {
            if response.len() < 5 {
                return Err(());
            }
            response[3] = state.hue;
            response[4] = state.saturation;
        },
    }
    Ok(())
}

/// The lighting control's answer to an operation.
#[derive(Copy, Clone, Debug, Eq, PartialEq, Structural)]
pub enum ControlReply {
    /// The request succeeded with this background state (read, patch).
    State(BackgroundState),
    /// The request succeeded without a state (save).
    Done,
    /// The request failed.
    Failed,
}

/// The response with the unhandled marker over its command byte (when it
/// has one).
pub open spec fn spec_mark_unhandled(resp: Seq<u8>) -> Seq<u8> {
    if resp.len() > 0 {
        resp.update(0, COMMAND_UNHANDLED)
    } else {
        resp
    }
}

/// Marks a response as unhandled.
pub fn mark_unhandled(response: &mut [u8])
    ensures
        final(response)@ == spec_mark_unhandled(old(response)@),
{
    if response.len() > 0 {
        response[0] = COMMAND_UNHANDLED;
    }
}

/// The response once the control has answered operation `op` with `reply`:
/// a read writes the value, a patch or save leaves the response as the
/// request was; a failure, a reply that does not fit the operation, or a
/// response too short for the value is marked unhandled.
pub open spec fn spec_complete(resp: Seq<u8>, op: Operation, reply: ControlReply) -> Seq<u8> {
    match (op, reply) {
        (Operation::Get(v), ControlReply::State(s)) => match spec_write_value(resp, v, s) {
            Ok(out) => out,
            Err(_) => spec_mark_unhandled(resp),
        },
        (Operation::Patch(_), ControlReply::State(_)) => resp,
        (Operation::Save, ControlReply::Done) => resp,
        _ => spec_mark_unhandled(resp),
    }
}

/// Completes the response of an operation with the control's reply.
pub fn complete_packet(response: &mut [u8], op: Operation, reply: ControlReply)
    ensures
        final(response)@ == spec_complete(old(response)@, op, reply),
{
    match (op, reply) {
        (Operation::Get(v), ControlReply::State(s)) => {
            if write_value(response, v, s).is_err() {
                mark_unhandled(response);
            }
        },
        (Operation::Patch(_), ControlReply::State(_)) => {},
        (Operation::Save, ControlReply::Done) => {},
        _ => mark_unhandled(response),
    }
}

/// The state of `state` after patch `p`: every field the patch names
/// replaced, the others kept.
pub open spec fn spec_apply_patch(p: BackgroundPatch, state: BackgroundState) -> BackgroundState {
    BackgroundState {
        enabled: match p.enabled {
            Some(x) => x,
            None => state.enabled,
        },
        hue: match p.hue {
            Some(x) => x,
            None => state.hue,
        },
        saturation: match p.saturation {
            Some(x) => x,
            None => state.saturation,
        },
        value: match p.value {
            Some(x) => x,
            None => state.value,
        },
        speed: match p.speed {
            Some(x) => x,
            None => state.speed,
        },
        mode: match p.mode {
            Some(x) => x,
            None => state.mode,
        },
    }
}

/// A set request followed by a get of the same value, against a control
/// that applies patches as they are, reads back the bytes that were set.
pub proof fn lemma_set_then_get(req: Seq<u8>, resp: Seq<u8>, state: BackgroundState)
    requires
        spec_parse(req) matches Ok(Operation::Patch(_)),
        resp.len() >= 5,
    ensures
        ({
            let p = spec_parse(req)->Ok_0->Patch_0;
            let v = spec_value(req[2])->Ok_0;
            let after = spec_apply_patch(p, state);
            let out = spec_complete(resp, Operation::Get(v), ControlReply::State(after));
            &&& out[3] == req[3]
            &&& v == Value::Color ==> out[4] == req[4]
        }),
{
}

/// Turning the effect off only disables the background: its mode is kept.
pub proof fn lemma_effect_off_keeps_mode(req: Seq<u8>, state: BackgroundState)
    requires
        req.len() >= 4,
        req[1] == CHANNEL,
        req[0] == COMMAND_SET,
        req[2] == VALUE_EFFECT,
        req[3] == EFFECT_OFF,
    ensures
        spec_parse(req) matches Ok(Operation::Patch(p)) && !spec_apply_patch(p, state).enabled
            && spec_apply_patch(p, state).mode == state.mode,
{
}

} // verus!
