use crate::axis::{clamp_axis, clamp_axis_spec, normalize, normalize_spec};
use crate::button::Button;
use crate::store::{
    clear_just_spec, opt_index, reveal_view, spec_alloc, spec_button_down, spec_button_up,
    spec_set_axis, spec_set_connected, spec_set_deadzone, Gamepads, GamepadsView,
};
use vstd::prelude::*;

verus! {

/// Per-axis deadzones of a device, in millionths, as discovered from
/// the backend once at connect time.
#[derive(Clone, Copy, Debug, PartialEq, Eq, Structural)]
pub struct Deadzones {
    /// Deadzone of the left stick x axis.
    pub left_x: u32,
    /// Deadzone of the left stick y axis.
    pub left_y: u32,
    /// Deadzone of the right stick x axis.
    pub right_x: u32,
    /// Deadzone of the right stick y axis.
    pub right_y: u32,
}

impl Deadzones {
    /// The deadzone of axis `k`, in the axis order of the state store.
    pub open spec fn axis_spec(self, k: int) -> u32 {
        if k == 0 {
            self.left_x
        } else if k == 1 {
            self.left_y
        } else if k == 2 {
            self.right_x
        } else {
            self.right_y
        }
    }

    /// A deadzone table that leaves every axis uncalibrated.
    pub fn none() -> (r: Deadzones)
        ensures
            forall|k: int| 0 <= k < 4 ==> r.axis_spec(k) == 0,
    {
        Deadzones { left_x: 0, left_y: 0, right_x: 0, right_y: 0 }
    }
}

/// One discrete event from the event-stream backend, with backend
/// values already read out as plain numbers: the handle names the
/// device, button and axis codes use the native polling library's
/// vocabulary, and axis values are in millionths of a full deflection.
#[derive(Clone, Copy, Debug, PartialEq, Eq, Structural)]
pub enum BackendEvent {
    /// A device appeared; carries its discovered per-axis deadzones
    /// (zero where the backend reports none).
    Connected { handle: u64, deadzones: Deadzones },
    /// A device went away. Its slot stays reserved for it.
    Disconnected { handle: u64 },
    /// A native button went down.
    ButtonPressed { handle: u64, native_button: u16 },
    /// A native button came up.
    ButtonReleased { handle: u64, native_button: u16 },
    /// A native axis moved; the value is raw, before deadzone
    /// rescaling.
    AxisChanged { handle: u64, native_axis: u16, value: i32 },
}

/// The logical button behind a native button code of the event-stream
/// backend, if the code maps to one.
pub open spec fn button_from_gilrs_spec(code: u16) -> Option<Button> {
    if code == 1 {
        Some(Button::ActionDown)
    } else if code == 2 {
        Some(Button::ActionRight)
    } else if code == 5 {
        Some(Button::ActionLeft)
    } else if code == 4 {
        Some(Button::ActionUp)
    } else if code == 7 {
        Some(Button::FrontLeftUpper)
    } else if code == 8 {
        Some(Button::FrontRightUpper)
    } else if code == 9 {
        Some(Button::FrontLeftLower)
    } else if code == 10 {
        Some(Button::FrontRightLower)
    } else if code == 11 {
        Some(Button::LeftCenterCluster)
    } else if code == 12 {
        Some(Button::RightCenterCluster)
    } else if code == 14 {
        Some(Button::LeftStick)
    } else if code == 15 {
        Some(Button::RightStick)
    } else if code == 16 {
        Some(Button::DPadUp)
    } else if code == 17 {
        Some(Button::DPadDown)
    } else if code == 18 {
        Some(Button::DPadLeft)
    } else if code == 19 {
        Some(Button::DPadRight)
    } else if code == 13 {
        Some(Button::Mode)
    } else {
        None
    }
}

impl Button {
    /// Map a button code of the event-stream backend (the `u16`
    /// representation of the polling library's button enumeration) to
    /// the logical button. Codes with no mapping yield nothing and
    /// their events are ignored.
    pub fn from_gilrs(code: u16) -> (r: Option<Button>)
        ensures
            r == button_from_gilrs_spec(code),
    {
        match code {
            1 => Some(Button::ActionDown),
            2 => Some(Button::ActionRight),
            5 => Some(Button::ActionLeft),
            4 => Some(Button::ActionUp),
            7 => Some(Button::FrontLeftUpper),
            8 => Some(Button::FrontRightUpper),
            9 => Some(Button::FrontLeftLower),
            10 => Some(Button::FrontRightLower),
            11 => Some(Button::LeftCenterCluster),
            12 => Some(Button::RightCenterCluster),
            14 => Some(Button::LeftStick),
            15 => Some(Button::RightStick),
            16 => Some(Button::DPadUp),
            17 => Some(Button::DPadDown),
            18 => Some(Button::DPadLeft),
            19 => Some(Button::DPadRight),
            13 => Some(Button::Mode),
            _ => None,
        }
    }
}

/// The axis index behind a native axis code of the event-stream
/// backend: left stick x and y, right stick x and y; other axes have
/// no slot in the state store.
pub open spec fn axis_from_gilrs_spec(code: u16) -> Option<int> {
    if code == 1 {
        Some(0)
    } else if code == 2 {
        Some(1)
    } else if code == 4 {
        Some(2)
    } else if code == 5 {
        Some(3)
    } else {
        None
    }
}

/// Map a native axis code of the event-stream backend to the axis
/// index in the state store.
pub fn axis_from_gilrs(code: u16) -> (r: Option<usize>)
    ensures
        opt_index(r) == axis_from_gilrs_spec(code),
{
    match code {
        1 => Some(0),
        2 => Some(1),
        4 => Some(2),
        5 => Some(3),
        _ => None,
    }
}

/// A connect on slot `i`: the slot is marked connected and its
/// deadzone table is populated, clamped to the admissible range.
pub open spec fn spec_connect(v: GamepadsView, i: int, dz: Deadzones) -> GamepadsView {
    spec_set_deadzone(
        spec_set_deadzone(
            spec_set_deadzone(
                spec_set_deadzone(spec_set_connected(v, i, true), i, 0, dz.left_x),
                i,
                1,
                dz.left_y,
            ),
            i,
            2,
            dz.right_x,
        ),
        i,
        3,
        dz.right_y,
    )
}

/// An axis move on slot `i`, axis `k`: the raw value is clamped into
/// range and rescaled by the slot's stored deadzone for that axis.
pub open spec fn spec_axis_changed(v: GamepadsView, i: int, k: int, value: i32) -> GamepadsView {
    spec_set_axis(
        v,
        i,
        k,
        normalize_spec(clamp_axis_spec(value as int), v.deadzones[4 * i + k] as int) as i32,
    )
}

/// What one backend event does to the state: resolve the handle to a
/// slot (claiming a free slot for a first sighting), then apply the
/// event to that slot. An event whose handle gets no slot, or whose
/// native code maps to nothing, changes nothing.
pub open spec fn step_event(v: GamepadsView, ev: BackendEvent) -> GamepadsView {
    match ev {
        BackendEvent::Connected { handle, deadzones } => {
            let r = spec_alloc(v, handle);
            match r.1 {
                Some(i) => spec_connect(r.0, i, deadzones),
                None => r.0,
            }
        },
        BackendEvent::Disconnected { handle } => {
            let r = spec_alloc(v, handle);
            match r.1 {
                Some(i) => spec_set_connected(r.0, i, false),
                None => r.0,
            }
        },
        BackendEvent::ButtonPressed { handle, native_button } => {
            let r = spec_alloc(v, handle);
            match r.1 {
                Some(i) => match button_from_gilrs_spec(native_button) {
                    Some(b) => spec_button_down(r.0, i, b),
                    None => r.0,
                },
                None => r.0,
            }
        },
        BackendEvent::ButtonReleased { handle, native_button } => {
            let r = spec_alloc(v, handle);
            match r.1 {
                Some(i) => match button_from_gilrs_spec(native_button) {
                    Some(b) => spec_button_up(r.0, i, b),
                    None => r.0,
                },
                None => r.0,
            }
        },
        BackendEvent::AxisChanged { handle, native_axis, value } => {
            let r = spec_alloc(v, handle);
            match r.1 {
                Some(i) => match axis_from_gilrs_spec(native_axis) {
                    Some(k) => spec_axis_changed(r.0, i, k, value),
                    None => r.0,
                },
                None => r.0,
            }
        },
    }
}

/// The state after ingesting a sequence of backend events in order.
pub open spec fn spec_ingest(v: GamepadsView, events: Seq<BackendEvent>) -> GamepadsView
    decreases events.len(),
{
    if events.len() == 0 {
        v
    } else {
        spec_ingest(step_event(v, events[0]), events.drop_first())
    }
}

/// Ingesting one more event steps the state once more.
pub proof fn lemma_ingest_snoc(v: GamepadsView, events: Seq<BackendEvent>, ev: BackendEvent)
    ensures
        spec_ingest(v, events.push(ev)) == step_event(spec_ingest(v, events), ev),
    decreases events.len(),
{
    let s = events.push(ev);
    assert(spec_ingest(v, s) == spec_ingest(step_event(v, s[0]), s.drop_first()));
    if events.len() == 0 {
        assert(s[0] == ev);
        assert(s.drop_first() =~= Seq::<BackendEvent>::empty());
        assert(spec_ingest(step_event(v, ev), s.drop_first()) == step_event(v, ev));
        assert(spec_ingest(v, events) == v);
    } else {
        assert(s[0] == events[0]);
        assert(s.drop_first() =~= events.drop_first().push(ev));
        lemma_ingest_snoc(step_event(v, events[0]), events.drop_first(), ev);
        assert(spec_ingest(v, events) == spec_ingest(step_event(v, events[0]), events.drop_first()));
    }
}

impl Gamepads {
    /// Apply one event of the event-stream backend to the state
    /// store.
    pub fn apply_event(&mut self, event: &BackendEvent)
        requires
            old(self)@.wf(),
        ensures
            final(self)@.wf(),
            final(self)@ == step_event(old(self)@, *event),
    {
        match *event {
            BackendEvent::Connected { handle, deadzones } => {
                if let Some(i) = self.find_or_insert(handle) {
                    self.set_connected(i, true);
                    self.set_deadzone(i, 0, deadzones.left_x);
                    self.set_deadzone(i, 1, deadzones.left_y);
                    self.set_deadzone(i, 2, deadzones.right_x);
                    self.set_deadzone(i, 3, deadzones.right_y);
                }
            },
            BackendEvent::Disconnected { handle } => {
                if let Some(i) = self.find_or_insert(handle) {
                    self.set_connected(i, false);
                }
            },
            BackendEvent::ButtonPressed { handle, native_button } => {
                if let Some(i) = self.find_or_insert(handle) {
                    if let Some(b) = Button::from_gilrs(native_button) {
                        self.apply_button_down(i, b);
                    }
                }
            },
            BackendEvent::ButtonReleased { handle, native_button } => {
                if let Some(i) = self.find_or_insert(handle) {
                    if let Some(b) = Button::from_gilrs(native_button) {
                        self.apply_button_up(i, b);
                    }
                }
            },
            BackendEvent::AxisChanged { handle, native_axis, value } => {
                if let Some(i) = self.find_or_insert(handle) {
                    if let Some(k) = axis_from_gilrs(native_axis) {
                        proof {
                            reveal_view(*self);
                        }
                        let dz = self.deadzones[4 * i + k];
                        let nv = normalize(clamp_axis(value), dz);
                        self.set_axis_value(i, k, nv);
                    }
                }
            },
        }
    }

    /// One tick of the event-stream backend: clear the just-pressed
    /// masks, then ingest this tick's events in the order the backend
    /// delivered them.
    pub fn poll(&mut self, events: &Vec<BackendEvent>)
        requires
            old(self)@.wf(),
        ensures
            final(self)@.wf(),
            final(self)@ == spec_ingest(clear_just_spec(old(self)@), events@),
    {
        self.begin_tick();
        let ghost start = self@;
        let mut i: usize = 0;
        while i < events.len()
            invariant
                self@.wf(),
                i <= events@.len(),
                self@ == spec_ingest(start, events@.take(i as int)),
            decreases events@.len() - i,
        {
            self.apply_event(&events[i]);
            proof {
                assert(events@.take(i + 1) =~= events@.take(i as int).push(events@[i as int]));
                lemma_ingest_snoc(start, events@.take(i as int), events@[i as int]);
            }
            i = i + 1;
        }
        proof {
            assert(events@.take(events@.len() as int) =~= events@);
        }
    }
}

/// What priming the table with one already-connected device does:
/// resolve or claim a slot, then record the connection state.
pub open spec fn spec_setup_step(v: GamepadsView, pad: (u64, bool)) -> GamepadsView {
    let r = spec_alloc(v, pad.0);
    match r.1 {
        Some(i) => spec_set_connected(r.0, i, pad.1),
        None => r.0,
    }
}

/// The state after priming the table with a listing of devices and
/// their connection state.
pub open spec fn spec_setup(v: GamepadsView, pads: Seq<(u64, bool)>) -> GamepadsView
    decreases pads.len(),
{
    if pads.len() == 0 {
        v
    } else {
        spec_setup(spec_setup_step(v, pads[0]), pads.drop_first())
    }
}

proof fn lemma_setup_snoc(v: GamepadsView, pads: Seq<(u64, bool)>, pad: (u64, bool))
    ensures
        spec_setup(v, pads.push(pad)) == spec_setup_step(spec_setup(v, pads), pad),
    decreases pads.len(),
{
    let s = pads.push(pad);
    assert(spec_setup(v, s) == spec_setup(spec_setup_step(v, s[0]), s.drop_first()));
    if pads.len() == 0 {
        assert(s[0] == pad);
        assert(s.drop_first() =~= Seq::<(u64, bool)>::empty());
        assert(spec_setup(spec_setup_step(v, pad), s.drop_first()) == spec_setup_step(v, pad));
        assert(spec_setup(v, pads) == v);
    } else {
        assert(s[0] == pads[0]);
        assert(s.drop_first() =~= pads.drop_first().push(pad));
        lemma_setup_snoc(spec_setup_step(v, pads[0]), pads.drop_first(), pad);
        assert(spec_setup(v, pads) == spec_setup(spec_setup_step(v, pads[0]), pads.drop_first()));
    }
}

impl Gamepads {
    /// Prime the slot table from the backend's listing of the devices
    /// already attached when the system starts: each pair is a native
    /// handle and whether that device is connected.
    pub fn setup_initially_connected_gilrs(&mut self, pads: &Vec<(u64, bool)>)
        requires
            old(self)@.wf(),
        ensures
            final(self)@.wf(),
            final(self)@ == spec_setup(old(self)@, pads@),
    {
        let ghost start = self@;
        let mut i: usize = 0;
        while i < pads.len()
            invariant
                self@.wf(),
                i <= pads@.len(),
                self@ == spec_setup(start, pads@.take(i as int)),
            decreases pads@.len() - i,
        {
            let (handle, connected) = pads[i];
            if let Some(slot) = self.find_or_insert(handle) {
                self.set_connected(slot, connected);
            }
            proof {
                assert(pads@.take(i + 1) =~= pads@.take(i as int).push(pads@[i as int]));
                lemma_setup_snoc(start, pads@.take(i as int), pads@[i as int]);
                assert(self@ == spec_setup_step(spec_setup(start, pads@.take(i as int)), pads@[i as int]));
            }
            i = i + 1;
        }
        proof {
            assert(pads@.take(pads@.len() as int) =~= pads@);
        }
    }
}

} // verus!
