//! Gamepad input normalization layer.
//!
//! Heterogeneous controller event sources (a native polling backend that
//! delivers discrete events, a host runtime that hands over whole-state
//! snapshots in a byte buffer, and a windowing system that delivers raw
//! keyboard- and axis-shaped events) are reconciled into one fixed-size
//! state model: up to eight device slots, each with a stable identifier,
//! a connection flag, bitmasks of currently-pressed and just-pressed
//! buttons, and four analog stick axes.
//!
//! Axis values and deadzones are carried as signed fixed-point numbers in
//! millionths, so `1_000_000` stands for a full deflection of `1.0`. The
//! host glue that talks to a concrete backend converts between that
//! representation and whatever the backend uses, and drives the per-tick
//! update: it hands events, snapshots or raw window input to the central
//! state object and performs the haptic commands that it plans.

mod axis;
mod button;
mod events;
mod gamepad;
mod haptics;
mod laws;
mod raw_input;
mod snapshot;
mod store;

pub use axis::abs_spec;
pub use axis::clamp_axis;
pub use axis::clamp_axis_spec;
pub use axis::clamp_deadzone;
pub use axis::clamp_deadzone_spec;
pub use axis::lemma_normalize_bounds;
pub use axis::lemma_normalize_full;
pub use axis::lemma_normalize_identity;
pub use axis::lemma_normalize_monotonic;
pub use axis::lemma_normalize_near_deadzone;
pub use axis::lemma_normalize_odd;
pub use axis::lemma_normalize_zero;
pub use axis::normalize;
pub use axis::normalize_spec;
pub use axis::AXIS_SCALE;
pub use axis::DEADZONE_MAX;
pub use button::button_of_index;
pub use button::lemma_button_index;
pub use button::Button;
pub use button::BUTTON_COUNT;
pub use events::axis_from_gilrs;
pub use events::axis_from_gilrs_spec;
pub use events::button_from_gilrs_spec;
pub use events::spec_axis_changed;
pub use events::spec_connect;
pub use events::spec_ingest;
pub use events::spec_setup;
pub use events::spec_setup_step;
pub use events::step_event;
pub use events::BackendEvent;
pub use events::Deadzones;
pub use gamepad::bits_buttons;
pub use gamepad::lemma_bits_buttons_contains;
pub use gamepad::lemma_down_up_same_tick;
pub use gamepad::lemma_edge_bit;
pub use gamepad::lemma_press_effect;
pub use gamepad::lemma_release_effect;
pub use gamepad::with_press;
pub use gamepad::with_release;
pub use gamepad::Gamepad;
pub use gamepad::GamepadId;
pub use haptics::kept_effects;
pub use haptics::lemma_haptic_expiry;
pub use haptics::magnitude_to_android;
pub use haptics::magnitude_to_u16;
pub use haptics::purged_tokens;
pub use haptics::scale_magnitude_spec;
pub use haptics::wrap_inc;
pub use haptics::LiveEffect;
pub use haptics::RumbleCommand;
pub use haptics::RumbleOutcome;
pub use laws::event_handle;
pub use laws::is_press_on;
pub use laws::lemma_clear_just_wf;
pub use laws::lemma_edge_requires_press;
pub use laws::lemma_ingest_slot_stable;
pub use laws::lemma_ninth_handle_ignored;
pub use laws::lemma_poll_slot_stable;
pub use laws::lemma_press_release_one_tick;
pub use laws::lemma_slot_exclusive;
pub use laws::lemma_snapshot_edge;
pub use laws::lemma_snapshot_edge_per_button;
pub use laws::lemma_snapshot_previous_mask;
pub use laws::lemma_step_event_wf;
pub use laws::lemma_step_slot_stable;
pub use laws::presses_on_slot;
pub use raw_input::button_from_scancode;
pub use raw_input::button_from_scancode_spec;
pub use raw_input::spec_axis_update;
pub use raw_input::spec_dpad_axis;
pub use raw_input::spec_raw_event;
pub use raw_input::RawInputEvent;
pub use snapshot::le32_spec;
pub use snapshot::le_i32_spec;
pub use snapshot::snap_pad_spec;
pub use snapshot::spec_snapshot;
pub use snapshot::SNAPSHOT_BUFFER_LEN;
pub use snapshot::SNAPSHOT_STRIDE;
pub use store::clear_just_spec;
pub use store::connected_pads;
pub use store::find_slot;
pub use store::initial_pad_spec;
pub use store::lemma_alloc_preserves_slots;
pub use store::lemma_alloc_wf;
pub use store::lemma_connected_pads_contains;
pub use store::lemma_find_slot_same;
pub use store::lemma_find_slot_some;
pub use store::lemma_full_table_ignores;
pub use store::opt_index;
pub use store::pad_axes_wf;
pub use store::spec_alloc;
pub use store::spec_button_down;
pub use store::spec_button_up;
pub use store::spec_get;
pub use store::spec_set_axis;
pub use store::spec_set_connected;
pub use store::spec_set_deadzone;
pub use store::Gamepads;
pub use store::GamepadsView;
pub use store::MAX_GAMEPADS;
