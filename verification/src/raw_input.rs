use crate::axis::{clamp_axis, clamp_axis_spec};
use crate::button::Button;
use crate::store::{
    spec_alloc, spec_button_down, spec_button_up, spec_set_axis, spec_set_connected, Gamepads,
    GamepadsView, MAX_GAMEPADS,
};
use vstd::prelude::*;

verus! {

/// One raw window-system input event, as the windowing layer delivers
/// it: a keyboard-shaped key transition with a platform scancode, or a
/// multi-value axis update. The device value is the windowing
/// system's per-device-session identifier, read out as a plain
/// number; axis values are in millionths of a full deflection.
#[derive(Debug)]
pub enum RawInputEvent {
    /// A key went down or up on a device.
    Key { device: u64, scancode: u32, pressed: bool },
    /// An axis update: the first two values drive the D-pad as
    /// pseudo-digital presses by sign, the following four are copied
    /// into the stick axes.
    AxisUpdate { device: u64, values: Vec<i32> },
}

/// The logical button behind a platform scancode of the raw-input
/// backend, if the fixed table maps it.
pub open spec fn button_from_scancode_spec(scancode: u32) -> Option<Button> {
    if scancode == 19 {
        Some(Button::DPadUp)
    } else if scancode == 20 {
        Some(Button::DPadDown)
    } else if scancode == 21 {
        Some(Button::DPadLeft)
    } else if scancode == 22 {
        Some(Button::DPadRight)
    } else if scancode == 96 {
        Some(Button::ActionDown)
    } else if scancode == 97 {
        Some(Button::ActionRight)
    } else if scancode == 99 {
        Some(Button::ActionLeft)
    } else if scancode == 100 {
        Some(Button::ActionUp)
    } else if scancode == 102 {
        Some(Button::FrontLeftUpper)
    } else if scancode == 103 {
        Some(Button::FrontRightUpper)
    } else if scancode == 104 {
        Some(Button::FrontLeftLower)
    } else if scancode == 105 {
        Some(Button::FrontRightLower)
    } else if scancode == 106 {
        Some(Button::LeftStick)
    } else if scancode == 107 {
        Some(Button::RightStick)
    } else if scancode == 108 {
        Some(Button::RightCenterCluster)
    } else if scancode == 109 {
        Some(Button::LeftCenterCluster)
    } else {
        None
    }
}

/// Map a platform scancode of the raw-input backend to the logical
/// button: the game-controller keycodes for the D-pad, the four action
/// buttons, the four shoulder buttons, the two stick clicks and the
/// two center-cluster buttons. Unmapped scancodes yield nothing and
/// their events are ignored.
pub fn button_from_scancode(scancode: u32) -> (r: Option<Button>)
    ensures
        r == button_from_scancode_spec(scancode),
{
    match scancode {
        19 => Some(Button::DPadUp),
        20 => Some(Button::DPadDown),
        21 => Some(Button::DPadLeft),
        22 => Some(Button::DPadRight),
        96 => Some(Button::ActionDown),
        97 => Some(Button::ActionRight),
        99 => Some(Button::ActionLeft),
        100 => Some(Button::ActionUp),
        102 => Some(Button::FrontLeftUpper),
        103 => Some(Button::FrontRightUpper),
        104 => Some(Button::FrontLeftLower),
        105 => Some(Button::FrontRightLower),
        106 => Some(Button::LeftStick),
        107 => Some(Button::RightStick),
        108 => Some(Button::RightCenterCluster),
        109 => Some(Button::LeftCenterCluster),
        _ => None,
    }
}

/// A pseudo-digital D-pad derivation from one signed axis value: a
/// negative value presses the negative-direction button and releases
/// its opposite, a positive value the reverse, zero releases both.
pub open spec fn spec_dpad_axis(
    v: GamepadsView,
    i: int,
    value: i32,
    negative: Button,
    positive: Button,
) -> GamepadsView {
    if value < 0 {
        spec_button_up(spec_button_down(v, i, negative), i, positive)
    } else if value > 0 {
        spec_button_up(spec_button_down(v, i, positive), i, negative)
    } else {
        spec_button_up(spec_button_up(v, i, negative), i, positive)
    }
}

/// What an axis update does to slot `i`: the first value drives D-pad
/// left/right, the second up/down, and the third to sixth are copied
/// into the four stick axes, clamped into range; values beyond the
/// given ones are left as they were.
pub open spec fn spec_axis_update(v: GamepadsView, i: int, values: Seq<i32>) -> GamepadsView {
    let v1 = if values.len() >= 1 {
        spec_dpad_axis(v, i, values[0], Button::DPadLeft, Button::DPadRight)
    } else {
        v
    };
    let v2 = if values.len() >= 2 {
        spec_dpad_axis(v1, i, values[1], Button::DPadUp, Button::DPadDown)
    } else {
        v1
    };
    let v3 = if values.len() >= 3 {
        spec_set_axis(v2, i, 0, clamp_axis_spec(values[2] as int) as i32)
    } else {
        v2
    };
    let v4 = if values.len() >= 4 {
        spec_set_axis(v3, i, 1, clamp_axis_spec(values[3] as int) as i32)
    } else {
        v3
    };
    let v5 = if values.len() >= 5 {
        spec_set_axis(v4, i, 2, clamp_axis_spec(values[4] as int) as i32)
    } else {
        v4
    };
    if values.len() >= 6 {
        spec_set_axis(v5, i, 3, clamp_axis_spec(values[5] as int) as i32)
    } else {
        v5
    }
}

/// What one raw window event does to the state: resolve the device's
/// session identifier to a slot (claiming one for a first sighting);
/// an event the adapter understands marks the device connected, since
/// this backend has no connect events of its own. A key whose
/// scancode the fixed table does not map is dropped silently: beyond
/// the slot claim of the resolution itself, no slot state changes.
pub open spec fn spec_raw_event(v: GamepadsView, ev: RawInputEvent) -> GamepadsView {
    match ev {
        RawInputEvent::Key { device, scancode, pressed } => {
            let r = spec_alloc(v, device);
            match r.1 {
                Some(i) => match button_from_scancode_spec(scancode) {
                    Some(b) => {
                        let v1 = spec_set_connected(r.0, i, true);
                        if pressed {
                            spec_button_down(v1, i, b)
                        } else {
                            spec_button_up(v1, i, b)
                        }
                    },
                    None => r.0,
                },
                None => r.0,
            }
        },
        RawInputEvent::AxisUpdate { device, values } => {
            let r = spec_alloc(v, device);
            match r.1 {
                Some(i) => spec_axis_update(spec_set_connected(r.0, i, true), i, values@),
                None => r.0,
            }
        },
    }
}

impl Gamepads {
    /// Apply the sign of one raw axis value to an opposed D-pad button
    /// pair.
    fn apply_dpad_axis(&mut self, slot: usize, value: i32, negative: Button, positive: Button)
        requires
            old(self)@.wf(),
            slot < MAX_GAMEPADS,
        ensures
            final(self)@.wf(),
            final(self)@ == spec_dpad_axis(old(self)@, slot as int, value, negative, positive),
    {
        if value < 0 {
            self.apply_button_down(slot, negative);
            self.apply_button_up(slot, positive);
        } else if value > 0 {
            self.apply_button_down(slot, positive);
            self.apply_button_up(slot, negative);
        } else {
            self.apply_button_up(slot, negative);
            self.apply_button_up(slot, positive);
        }
    }

    /// Apply one raw window-system event to the state store. The
    /// raw-input backend delivers no tick boundary of its own: the
    /// host glue runs `begin_tick` once per frame and then hands every
    /// window event of that frame here. An event with an unmapped
    /// scancode is dropped silently.
    pub fn on_event(&mut self, event: &RawInputEvent)
        requires
            old(self)@.wf(),
        ensures
            final(self)@.wf(),
            final(self)@ == spec_raw_event(old(self)@, *event),
    {
        match event {
            RawInputEvent::Key { device, scancode, pressed } => {
                if let Some(i) = self.find_or_insert(*device) {
                    if let Some(b) = button_from_scancode(*scancode) {
                        self.set_connected(i, true);
                        if *pressed {
                            self.apply_button_down(i, b);
                        } else {
                            self.apply_button_up(i, b);
                        }
                    }
                }
            },
            RawInputEvent::AxisUpdate { device, values } => {
                if let Some(i) = self.find_or_insert(*device) {
                    self.set_connected(i, true);
                    if values.len() >= 1 {
                        self.apply_dpad_axis(i, values[0], Button::DPadLeft, Button::DPadRight);
                    }
                    if values.len() >= 2 {
                        self.apply_dpad_axis(i, values[1], Button::DPadUp, Button::DPadDown);
                    }
                    if values.len() >= 3 {
                        self.set_axis_value(i, 0, clamp_axis(values[2]));
                    }
                    if values.len() >= 4 {
                        self.set_axis_value(i, 1, clamp_axis(values[3]));
                    }
                    if values.len() >= 5 {
                        self.set_axis_value(i, 2, clamp_axis(values[4]));
                    }
                    if values.len() >= 6 {
                        self.set_axis_value(i, 3, clamp_axis(values[5]));
                    }
                }
            },
        }
    }
}

} // verus!
