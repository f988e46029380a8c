use crate::error::Error;
use vstd::prelude::*;

verus! {

/// The accessory outputs of one device session.
///
/// Some flags are derived from others: the control operations re-derive them,
/// while the `force_*` operations set an output directly and leave the rest
/// alone.
#[derive(Debug, Clone, Copy, PartialEq, Eq, Structural)]
pub struct RSNavState {
    pub led_bar: bool,
    pub led_bar_low_mode: bool,
    pub high_beam: bool,
    pub led_bar_active: bool,
    pub reverse_camera: bool,
    pub reverse_lights: bool,
    pub reverse: bool,
    pub reverse_lights_active: bool,
    pub trunk_lights: bool,
}

/// The value of one flag bit: `mask` when `on`, else zero.
pub open spec fn flag_bits(on: bool, mask: u8) -> u8 {
    if on {
        mask
    } else {
        0u8
    }
}

impl RSNavState {
    /// The state with every flag off.
    pub open spec fn spec_new() -> RSNavState {
        RSNavState {
            led_bar: false,
            led_bar_low_mode: false,
            high_beam: false,
            led_bar_active: false,
            reverse_camera: false,
            reverse_lights: false,
            reverse: false,
            reverse_lights_active: false,
            trunk_lights: false,
        }
    }

    /// The dependency rules between the flags: the LED bar shines when it is
    /// active and the high beam is on, the camera runs while reversing, and the
    /// reverse lights shine while reversing if they are active.
    pub open spec fn is_consistent(self) -> bool {
        &&& self.led_bar == (self.led_bar_active && self.high_beam)
        &&& self.reverse_camera == self.reverse
        &&& self.reverse_lights == (self.reverse && self.reverse_lights_active)
    }

    /// The state after `set_led_bar_active(on)`.
    pub open spec fn spec_set_led_bar_active(self, on: bool) -> RSNavState {
        RSNavState { led_bar_active: on, led_bar: on && self.high_beam, ..self }
    }

    /// The state after `set_reverse_lights_active(on)`.
    pub open spec fn spec_set_reverse_lights_active(self, on: bool) -> RSNavState {
        RSNavState { reverse_lights_active: on, reverse_lights: on && self.reverse, ..self }
    }

    /// The state after `reverse(on)`.
    pub open spec fn spec_reverse(self, on: bool) -> RSNavState {
        RSNavState {
            reverse: on,
            reverse_camera: on,
            reverse_lights: on && self.reverse_lights_active,
            ..self
        }
    }

    /// The state after `high_beam(on)`.
    pub open spec fn spec_high_beam(self, on: bool) -> RSNavState {
        RSNavState {
            high_beam: on,
            led_bar: if on {
                self.led_bar || self.led_bar_active
            } else {
                false
            },
            ..self
        }
    }

    /// First persisted byte: bits 0 to 3 hold `led_bar`, `led_bar_low_mode`,
    /// `high_beam` and `led_bar_active`.
    pub open spec fn spec_low_byte(self) -> u8 {
        flag_bits(self.led_bar, 1u8) | flag_bits(self.led_bar_low_mode, 2u8) | flag_bits(
            self.high_beam,
            4u8,
        ) | flag_bits(self.led_bar_active, 8u8)
    }

    /// Second persisted byte: bits 0 to 4 hold `reverse_camera`,
    /// `reverse_lights`, `reverse`, `reverse_lights_active` and `trunk_lights`.
    pub open spec fn spec_high_byte(self) -> u8 {
        flag_bits(self.reverse_camera, 1u8) | flag_bits(self.reverse_lights, 2u8) | flag_bits(
            self.reverse,
            4u8,
        ) | flag_bits(self.reverse_lights_active, 8u8) | flag_bits(self.trunk_lights, 16u8)
    }

    /// The two bytes that persist the state.
    pub open spec fn spec_bytes(self) -> Seq<u8> {
        seq![self.spec_low_byte(), self.spec_high_byte()]
    }

    /// The state that two persisted bytes stand for; unused bits are ignored.
    pub open spec fn spec_from_bytes(b0: u8, b1: u8) -> RSNavState {
        RSNavState {
            led_bar: b0 & 1u8 != 0,
            led_bar_low_mode: b0 & 2u8 != 0,
            high_beam: b0 & 4u8 != 0,
            led_bar_active: b0 & 8u8 != 0,
            reverse_camera: b1 & 1u8 != 0,
            reverse_lights: b1 & 2u8 != 0,
            reverse: b1 & 4u8 != 0,
            reverse_lights_active: b1 & 8u8 != 0,
            trunk_lights: b1 & 16u8 != 0,
        }
    }

    pub fn new() -> (r: RSNavState)
        ensures
            r == RSNavState::spec_new(),
            r.is_consistent(),
    {
        RSNavState {
            led_bar: false,
            led_bar_low_mode: false,
            high_beam: false,
            led_bar_active: false,
            reverse_camera: false,
            reverse_lights: false,
            reverse: false,
            reverse_lights_active: false,
            trunk_lights: false,
        }
    }

    /// Activates or deactivates the LED bar; an active bar follows the high beam.
    pub fn set_led_bar_active(&mut self, on: bool)
        ensures
            *final(self) == old(self).spec_set_led_bar_active(on),
            old(self).is_consistent() ==> final(self).is_consistent(),
    {
        self.led_bar_active = on;
        if self.led_bar_active {
            self.led_bar = self.high_beam;
        } else {
            self.led_bar = false;
        }
    }

    pub fn set_led_bar_low_mode(&mut self, on: bool)
        ensures
            *final(self) == (RSNavState { led_bar_low_mode: on, ..*old(self) }),
            old(self).is_consistent() ==> final(self).is_consistent(),
    {
        self.led_bar_low_mode = on;
    }

    /// Sets the LED bar output directly, whatever its activation.
    pub fn force_led_bar(&mut self, on: bool)
        ensures
            *final(self) == (RSNavState { led_bar: on, ..*old(self) }),
    {
        self.led_bar = on;
    }

    pub fn set_trunk_lights(&mut self, on: bool)
        ensures
            *final(self) == (RSNavState { trunk_lights: on, ..*old(self) }),
            old(self).is_consistent() ==> final(self).is_consistent(),
    {
        self.trunk_lights = on;
    }

    /// Activates or deactivates the reverse lights; active lights shine while
    /// reversing.
    pub fn set_reverse_lights_active(&mut self, on: bool)
        ensures
            *final(self) == old(self).spec_set_reverse_lights_active(on),
            old(self).is_consistent() ==> final(self).is_consistent(),
    {
        self.reverse_lights_active = on;
        if self.reverse_lights_active {
            self.reverse_lights = self.reverse;
        } else {
            self.reverse_lights = false;
        }
    }

    /// Sets the reverse lights output directly, whatever its activation.
    pub fn force_reverse_lights(&mut self, on: bool)
        ensures
            *final(self) == (RSNavState { reverse_lights: on, ..*old(self) }),
    {
        self.reverse_lights = on;
    }

    /// Sets the reverse camera output directly.
    pub fn force_reverse_camera(&mut self, on: bool)
        ensures
            *final(self) == (RSNavState { reverse_camera: on, ..*old(self) }),
    {
        self.reverse_camera = on;
    }

    /// Enters or leaves reverse: the camera follows, and so do the reverse
    /// lights where they are active.
    pub fn reverse(&mut self, on: bool)
        ensures
            *final(self) == old(self).spec_reverse(on),
            !on ==> !final(self).reverse_lights && !final(self).reverse_camera,
            old(self).is_consistent() ==> final(self).is_consistent(),
    {
        self.reverse = on;
        if !self.reverse {
            self.reverse_lights = false;
            self.reverse_camera = false;
        } else {
            self.reverse_camera = true;
            self.reverse_lights = self.reverse_lights_active;
        }
    }

    /// Switches the high beam; an active LED bar comes on with it, and any
    /// LED bar goes off with it.
    pub fn high_beam(&mut self, on: bool)
        ensures
            *final(self) == old(self).spec_high_beam(on),
            old(self).is_consistent() ==> final(self).is_consistent(),
    {
        self.high_beam = on;
        if self.high_beam {
            if self.led_bar_active {
                self.led_bar = true;
            }
        } else {
            self.led_bar = false;
        }
    }

    /// Appends the two bytes that persist the state.
    pub fn serialize(&self, out: &mut Vec<u8>)
        ensures
            final(out)@ == old(out)@ + self.spec_bytes(),
    {
        let low: u8 = (if self.led_bar { 1u8 } else { 0u8 }) | (if self.led_bar_low_mode {
            2u8
        } else {
            0u8
        }) | (if self.high_beam { 4u8 } else { 0u8 }) | (if self.led_bar_active {
            8u8
        } else {
            0u8
        });
        let high: u8 = (if self.reverse_camera { 1u8 } else { 0u8 }) | (if self.reverse_lights {
            2u8
        } else {
            0u8
        }) | (if self.reverse { 4u8 } else { 0u8 }) | (if self.reverse_lights_active {
            8u8
        } else {
            0u8
        }) | (if self.trunk_lights { 16u8 } else { 0u8 });
        out.push(low);
        out.push(high);
        assert(out@ =~= old(out)@ + self.spec_bytes());
    }

    /// Reads a state from the first two bytes of `data`.
    pub fn deserialize(data: &[u8]) -> (r: Result<RSNavState, Error>)
        ensures
            data@.len() < 2 ==> r == Err::<RSNavState, Error>(Error::StateDeserializeFailed),
            data@.len() >= 2 ==> r == Ok::<RSNavState, Error>(
                RSNavState::spec_from_bytes(data@[0], data@[1]),
            ),
    {
        if data.len() < 2 {
            return Err(Error::StateDeserializeFailed);
        }
        let b0 = data[0];
        let b1 = data[1];
        Ok(RSNavState {
            led_bar: b0 & 1u8 != 0,
            led_bar_low_mode: b0 & 2u8 != 0,
            high_beam: b0 & 4u8 != 0,
            led_bar_active: b0 & 8u8 != 0,
            reverse_camera: b1 & 1u8 != 0,
            reverse_lights: b1 & 2u8 != 0,
            reverse: b1 & 4u8 != 0,
            reverse_lights_active: b1 & 8u8 != 0,
            trunk_lights: b1 & 16u8 != 0,
        })
    }
}

impl Default for RSNavState {
    fn default() -> (r: RSNavState)
        ensures
            r == RSNavState::spec_new(),
    {
        RSNavState::new()
    }
}

/// Reading back the two persisted bytes of any state gives that state.
pub proof fn lemma_state_bytes_round_trip(s: RSNavState)
    ensures
        RSNavState::spec_from_bytes(s.spec_bytes()[0], s.spec_bytes()[1]) == s,
{
    let (a, b, c, d) = (s.led_bar, s.led_bar_low_mode, s.high_beam, s.led_bar_active);
    let (e, f, g, h, i) = (
        s.reverse_camera,
        s.reverse_lights,
        s.reverse,
        s.reverse_lights_active,
        s.trunk_lights,
    );
    let x = s.spec_low_byte();
    let y = s.spec_high_byte();
    assert(x == flag_bits(a, 1u8) | flag_bits(b, 2u8) | flag_bits(c, 4u8) | flag_bits(d, 8u8));
    assert(y == flag_bits(e, 1u8) | flag_bits(f, 2u8) | flag_bits(g, 4u8) | flag_bits(h, 8u8)
        | flag_bits(i, 16u8));
    assert(x == flag_bits(a, 1u8) | flag_bits(b, 2u8) | flag_bits(c, 4u8) | flag_bits(d, 8u8) ==> {
        &&& (x & 1u8 != 0) == a
        &&& (x & 2u8 != 0) == b
        &&& (x & 4u8 != 0) == c
        &&& (x & 8u8 != 0) == d
    }) by (bit_vector);
    assert(y == flag_bits(e, 1u8) | flag_bits(f, 2u8) | flag_bits(g, 4u8) | flag_bits(h, 8u8)
        | flag_bits(i, 16u8) ==> {
        &&& (y & 1u8 != 0) == e
        &&& (y & 2u8 != 0) == f
        &&& (y & 4u8 != 0) == g
        &&& (y & 8u8 != 0) == h
        &&& (y & 16u8 != 0) == i
    }) by (bit_vector);
}

/// Applying an operation that re-derives flags twice with the same argument
/// leaves the state that applying it once left.
pub proof fn lemma_derived_operations_idempotent(s: RSNavState, on: bool)
    ensures
        s.spec_set_led_bar_active(on).spec_set_led_bar_active(on) == s.spec_set_led_bar_active(on),
        s.spec_set_reverse_lights_active(on).spec_set_reverse_lights_active(on)
            == s.spec_set_reverse_lights_active(on),
        s.spec_reverse(on).spec_reverse(on) == s.spec_reverse(on),
        s.spec_high_beam(on).spec_high_beam(on) == s.spec_high_beam(on),
{
}

/// Entering reverse and then activating the reverse lights turns them on,
/// from any state.
pub proof fn lemma_reverse_then_lights_active(s: RSNavState)
    ensures
        s.spec_reverse(true).spec_set_reverse_lights_active(true).reverse_lights,
{
}

/// With the LED bar active, switching the high beam on turns the bar on, and
/// switching it off again turns the bar off, from any state.
pub proof fn lemma_led_bar_follows_high_beam(s: RSNavState)
    ensures
        s.spec_set_led_bar_active(true).spec_high_beam(true).led_bar,
        !s.spec_set_led_bar_active(true).spec_high_beam(true).spec_high_beam(false).led_bar,
{
}

} // verus!
