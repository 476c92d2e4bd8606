use crate::gamepad::{is_scaled_axis, is_scaled_length, GamepadInput, Vec2, XInputGamepad, STICK_MAX};
use crate::config::Config;
use crate::keys::VirtualKeyCode;
use vstd::prelude::*;

verus! {

/// The value of a fully pressed analog trigger.
pub const TRIGGER_MAX: u8 = 255;

/// The keys that were held down at one moment.
pub struct KeySnapshot {
    pub pressed_keys: Vec<VirtualKeyCode>,
}

impl KeySnapshot {
    /// Whether the snapshot holds `key` as pressed.
    pub fn is_pressed(&self, key: VirtualKeyCode) -> (r: bool)
        ensures
            r == self.pressed_keys@.contains(key),
    {
        let mut i: usize = 0;
        while i < self.pressed_keys.len()
            invariant
                i <= self.pressed_keys@.len(),
                forall|j: int| 0 <= j < i ==> self.pressed_keys@[j] != key,
            decreases self.pressed_keys@.len() - i,
        {
            if self.pressed_keys[i] == key {
                return true;
            }
            i += 1;
        }
        false
    }
}

/// Whether every stick direction of a mapping is a unit step, and the
/// mapping is short enough that stick sums fit a 32-bit coordinate.
pub open spec fn mapping_well_formed(m: Seq<(GamepadInput, VirtualKeyCode)>) -> bool {
    &&& m.len() <= i32::MAX
    &&& forall|i: int| 0 <= i < m.len() ==> (#[trigger] m[i]).0.is_well_formed()
}

/// The button flag that an entry contributes under the pressed keys `keys`.
pub open spec fn entry_mask(e: (GamepadInput, VirtualKeyCode), keys: Seq<VirtualKeyCode>) -> u16 {
    match e.0 {
        GamepadInput::Button(mask) => if keys.contains(e.1) {
            mask
        } else {
            0
        },
        _ => 0,
    }
}

/// The union of the button flags of the pressed entries.
pub open spec fn pressed_buttons(
    m: Seq<(GamepadInput, VirtualKeyCode)>,
    keys: Seq<VirtualKeyCode>,
) -> u16
    decreases m.len(),
{
    if m.len() == 0 {
        0
    } else {
        pressed_buttons(m.drop_last(), keys) | entry_mask(m.last(), keys)
    }
}

/// The trigger input of one side.
pub open spec fn trigger_input(left: bool) -> GamepadInput {
    if left {
        GamepadInput::LeftTrigger
    } else {
        GamepadInput::RightTrigger
    }
}

/// Whether some pressed entry drives the trigger of the given side.
pub open spec fn trigger_held(
    m: Seq<(GamepadInput, VirtualKeyCode)>,
    keys: Seq<VirtualKeyCode>,
    left: bool,
) -> bool
    decreases m.len(),
{
    if m.len() == 0 {
        false
    } else {
        trigger_held(m.drop_last(), keys, left) || (m.last().0 == trigger_input(left)
            && keys.contains(m.last().1))
    }
}

/// The direction that an entry adds to the stick of the given side, if its
/// key is pressed; the zero vector otherwise.
pub open spec fn entry_step(
    e: (GamepadInput, VirtualKeyCode),
    keys: Seq<VirtualKeyCode>,
    left: bool,
) -> (int, int) {
    if keys.contains(e.1) {
        match e.0 {
            GamepadInput::LeftStick(v) => if left {
                (v.x as int, v.y as int)
            } else {
                (0, 0)
            },
            GamepadInput::RightStick(v) => if left {
                (0, 0)
            } else {
                (v.x as int, v.y as int)
            },
            _ => (0, 0),
        }
    } else {
        (0, 0)
    }
}

/// The sum of the directions of the pressed entries for the stick of the
/// given side.
pub open spec fn stick_sum(
    m: Seq<(GamepadInput, VirtualKeyCode)>,
    keys: Seq<VirtualKeyCode>,
    left: bool,
) -> (int, int)
    decreases m.len(),
{
    if m.len() == 0 {
        (0, 0)
    } else {
        let p = stick_sum(m.drop_last(), keys, left);
        let d = entry_step(m.last(), keys, left);
        (p.0 + d.0, p.1 + d.1)
    }
}

/// The axes `(out_x, out_y)` reported for a stick whose hardware axes are
/// `(hw_x, hw_y)` and whose pressed directions sum to `sum`: the
/// hardware values where the sum is zero, else the sum scaled to full
/// deflection.
pub open spec fn stick_output(hw_x: i16, hw_y: i16, sum: (int, int), out_x: i16, out_y: i16) -> bool {
    if sum.0 == 0 && sum.1 == 0 {
        out_x == hw_x && out_y == hw_y
    } else {
        let n = sum.0 * sum.0 + sum.1 * sum.1;
        is_scaled_axis(out_x as int, sum.0, n) && is_scaled_axis(out_y as int, sum.1, n)
    }
}

/// `out` is the hardware state `hw` with the inputs of the pressed entries of `m`
/// laid over it.
pub open spec fn is_overlay_of(
    out: XInputGamepad,
    hw: XInputGamepad,
    m: Seq<(GamepadInput, VirtualKeyCode)>,
    keys: Seq<VirtualKeyCode>,
) -> bool {
    &&& out.w_buttons == (hw.w_buttons | pressed_buttons(m, keys))
    &&& out.b_left_trigger == if trigger_held(m, keys, true) {
        TRIGGER_MAX
    } else {
        hw.b_left_trigger
    }
    &&& out.b_right_trigger == if trigger_held(m, keys, false) {
        TRIGGER_MAX
    } else {
        hw.b_right_trigger
    }
    &&& stick_output(
        hw.s_thumb_lx,
        hw.s_thumb_ly,
        stick_sum(m, keys, true),
        out.s_thumb_lx,
        out.s_thumb_ly,
    )
    &&& stick_output(
        hw.s_thumb_rx,
        hw.s_thumb_ry,
        stick_sum(m, keys, false),
        out.s_thumb_rx,
        out.s_thumb_ry,
    )
}

/// Writes the scaled stick direction `sum` into a pair of axes, or leaves
/// them as they are where the direction is zero.
fn apply_stick(x: &mut i16, y: &mut i16, sum: &Vec2)
    ensures
        stick_output(*old(x), *old(y), (sum.x as int, sum.y as int), *final(x), *final(y)),
{
    if sum.x != 0 || sum.y != 0 {
        let v = sum.normalize();
        *x = v.x as i16;
        *y = v.y as i16;
    }
}

/// Lays the inputs of the pressed keys of `snapshot`, as `mapping` assigns
/// them, over the controller state `hw` read from the hardware: buttons are added, triggers are
/// driven to the maximum, and each stick is set to the full-deflection
/// direction of its pressed directions unless these cancel out.
pub fn overlay(
    hw: &XInputGamepad,
    snapshot: &KeySnapshot,
    mapping: &Vec<(GamepadInput, VirtualKeyCode)>,
) -> (out: XInputGamepad)
    requires
        mapping_well_formed(mapping@),
    ensures
        is_overlay_of(out, *hw, mapping@, snapshot.pressed_keys@),
{
    let ghost keys = snapshot.pressed_keys@;
    let ghost m = mapping@;
    let mut buttons: u16 = 0;
    let mut left_trigger = false;
    let mut right_trigger = false;
    let mut left = Vec2::new(0, 0);
    let mut right = Vec2::new(0, 0);
    let mut i: usize = 0;
    while i < mapping.len()
        invariant
            m == mapping@,
            keys == snapshot.pressed_keys@,
            mapping_well_formed(m),
            i <= m.len(),
            buttons == pressed_buttons(m.subrange(0, i as int), keys),
            left_trigger == trigger_held(m.subrange(0, i as int), keys, true),
            right_trigger == trigger_held(m.subrange(0, i as int), keys, false),
            (left.x as int, left.y as int) == stick_sum(m.subrange(0, i as int), keys, true),
            (right.x as int, right.y as int) == stick_sum(m.subrange(0, i as int), keys, false),
            -(i as int) <= left.x <= i,
            -(i as int) <= left.y <= i,
            -(i as int) <= right.x <= i,
            -(i as int) <= right.y <= i,
        decreases m.len() - i,
    {
        let (target, key) = mapping[i];
        proof {
            assert(m.subrange(0, i + 1).drop_last() =~= m.subrange(0, i as int));
            assert(m[i as int].0.is_well_formed());
            // An entry that adds no flag leaves the union as it is.
            assert(buttons | 0u16 == buttons) by (bit_vector);
        }
        if snapshot.is_pressed(key) {
            match target {
                GamepadInput::Button(mask) => {
                    buttons = buttons | mask;
                },
                GamepadInput::LeftTrigger => {
                    left_trigger = true;
                },
                GamepadInput::RightTrigger => {
                    right_trigger = true;
                },
                GamepadInput::LeftStick(v) => {
                    left.add_assign(&v);
                },
                GamepadInput::RightStick(v) => {
                    right.add_assign(&v);
                },
            }
        }
        i += 1;
    }
    proof {
        assert(m.subrange(0, m.len() as int) =~= m);
    }
    let mut out = *hw;
    out.w_buttons = hw.w_buttons | buttons;
    if left_trigger {
        out.b_left_trigger = TRIGGER_MAX;
    }
    if right_trigger {
        out.b_right_trigger = TRIGGER_MAX;
    }
    apply_stick(&mut out.s_thumb_lx, &mut out.s_thumb_ly, &left);
    apply_stick(&mut out.s_thumb_rx, &mut out.s_thumb_ry, &right);
    out
}

/// The stick input of one side in the direction `v`.
pub open spec fn stick_input(left: bool, v: Vec2) -> GamepadInput {
    if left {
        GamepadInput::LeftStick(v)
    } else {
        GamepadInput::RightStick(v)
    }
}

/// The two axes of the stick of one side.
pub open spec fn stick_of(g: XInputGamepad, left: bool) -> (i16, i16) {
    if left {
        (g.s_thumb_lx, g.s_thumb_ly)
    } else {
        (g.s_thumb_rx, g.s_thumb_ry)
    }
}

/// The analog trigger of one side.
pub open spec fn trigger_of(g: XInputGamepad, left: bool) -> u8 {
    if left {
        g.b_left_trigger
    } else {
        g.b_right_trigger
    }
}

/// The overlay only adds buttons: every button that the hardware reports
/// pressed stays pressed.
pub proof fn lemma_overlay_keeps_hardware_buttons(
    out: XInputGamepad,
    hw: XInputGamepad,
    m: Seq<(GamepadInput, VirtualKeyCode)>,
    keys: Seq<VirtualKeyCode>,
)
    requires
        is_overlay_of(out, hw, m, keys),
    ensures
        out.w_buttons & hw.w_buttons == hw.w_buttons,
{
    let a = hw.w_buttons;
    let p = pressed_buttons(m, keys);
    assert((a | p) & a == a) by (bit_vector);
}

proof fn lemma_trigger_not_held(
    m: Seq<(GamepadInput, VirtualKeyCode)>,
    keys: Seq<VirtualKeyCode>,
    left: bool,
)
    requires
        forall|i: int|
            0 <= i < m.len() && (#[trigger] m[i]).0 == trigger_input(left) ==> !keys.contains(
                m[i].1,
            ),
    ensures
        !trigger_held(m, keys, left),
    decreases m.len(),
{
    if m.len() > 0 {
        let d = m.drop_last();
        assert forall|i: int| 0 <= i < d.len() && (#[trigger] d[i]).0 == trigger_input(left) implies !keys.contains(d[i].1) by {
            assert(d[i] == m[i]);
        }
        lemma_trigger_not_held(d, keys, left);
    }
}

/// A trigger none of whose keys is pressed reports the hardware value.
pub proof fn lemma_idle_trigger_passes_through(
    out: XInputGamepad,
    hw: XInputGamepad,
    m: Seq<(GamepadInput, VirtualKeyCode)>,
    keys: Seq<VirtualKeyCode>,
    left: bool,
)
    requires
        is_overlay_of(out, hw, m, keys),
        forall|i: int|
            0 <= i < m.len() && (#[trigger] m[i]).0 == trigger_input(left) ==> !keys.contains(
                m[i].1,
            ),
    ensures
        trigger_of(out, left) == trigger_of(hw, left),
{
    lemma_trigger_not_held(m, keys, left);
}

/// Where every pressed entry of a stick but those at `i` and `j` adds
/// nothing, the stick's sum is what those two add.
proof fn lemma_stick_sum_of_two(
    m: Seq<(GamepadInput, VirtualKeyCode)>,
    keys: Seq<VirtualKeyCode>,
    left: bool,
    i: int,
    j: int,
)
    requires
        0 <= i,
        0 <= j,
        i != j,
        forall|k: int|
            0 <= k < m.len() && k != i && k != j ==> entry_step(#[trigger] m[k], keys, left) == (
            0int,
            0int,
        ),
    ensures
        ({
            let a = if i < m.len() {
                entry_step(m[i], keys, left)
            } else {
                (0int, 0int)
            };
            let b = if j < m.len() {
                entry_step(m[j], keys, left)
            } else {
                (0int, 0int)
            };
            stick_sum(m, keys, left) == (a.0 + b.0, a.1 + b.1)
        }),
    decreases m.len(),
{
    if m.len() > 0 {
        let d = m.drop_last();
        assert forall|k: int| 0 <= k < d.len() && k != i && k != j implies entry_step(
            #[trigger] d[k],
            keys,
            left,
        ) == (0int, 0int) by {
            assert(d[k] == m[k]);
        }
        lemma_stick_sum_of_two(d, keys, left, i, j);
        if i < d.len() {
            assert(d[i] == m[i]);
        }
        if j < d.len() {
            assert(d[j] == m[j]);
        }
    }
}

/// Two pressed keys of opposite directions `v` and `w` on one stick, with no
/// other pressed key on that stick, cancel out: the stick's sum is zero and
/// the stick reports the hardware axes.
pub proof fn lemma_opposing_directions_pass_through(
    out: XInputGamepad,
    hw: XInputGamepad,
    m: Seq<(GamepadInput, VirtualKeyCode)>,
    keys: Seq<VirtualKeyCode>,
    left: bool,
    i: int,
    j: int,
    v: Vec2,
    w: Vec2,
)
    requires
        is_overlay_of(out, hw, m, keys),
        0 <= i < m.len(),
        0 <= j < m.len(),
        i != j,
        keys.contains(m[i].1),
        keys.contains(m[j].1),
        m[i].0 == stick_input(left, v),
        m[j].0 == stick_input(left, w),
        w.x == -v.x,
        w.y == -v.y,
        forall|k: int|
            0 <= k < m.len() && k != i && k != j ==> entry_step(#[trigger] m[k], keys, left) == (
            0int,
            0int,
        ),
    ensures
        stick_sum(m, keys, left) == (0int, 0int),
        stick_of(out, left) == stick_of(hw, left),
{
    lemma_stick_sum_of_two(m, keys, left, i, j);
}

/// Whether `v` is one of the four unit directions along an axis.
pub open spec fn is_axis_unit(v: Vec2) -> bool {
    (v.x == 0 && (v.y == 1 || v.y == -1)) || (v.y == 0 && (v.x == 1 || v.x == -1))
}

proof fn lemma_scaled_unit(q: int, c: int)
    requires
        is_scaled_length(q, c, 1),
        c == 0 || c == 1,
    ensures
        q == c * STICK_MAX,
{
    if c == 0 {
        assert(q == 0) by (nonlinear_arith)
            requires 0 <= q, q * q * 1 <= (32767 * 32767) * (0 * 0int);
    } else {
        assert(q == 32767) by (nonlinear_arith)
            requires
                0 <= q,
                q * q * 1 <= (32767 * 32767) * (1 * 1int),
                (q + 1) * (q + 1) * 1 > (32767 * 32767) * (1 * 1int),
        {
            if q < 32767 {
                assert((q + 1) * (q + 1) <= 32767 * 32767) by (nonlinear_arith)
                    requires 0 <= q < 32767;
            }
            if q > 32767 {
                assert(q * q > 32767 * 32767) by (nonlinear_arith)
                    requires q > 32767;
            }
        }
    }
}

/// A single pressed key on a stick, for a unit direction along an axis,
/// drives that stick to full deflection in that direction.
pub proof fn lemma_single_direction_full_deflection(
    out: XInputGamepad,
    hw: XInputGamepad,
    m: Seq<(GamepadInput, VirtualKeyCode)>,
    keys: Seq<VirtualKeyCode>,
    left: bool,
    i: int,
    v: Vec2,
)
    requires
        is_overlay_of(out, hw, m, keys),
        0 <= i < m.len(),
        keys.contains(m[i].1),
        m[i].0 == stick_input(left, v),
        is_axis_unit(v),
        forall|k: int|
            0 <= k < m.len() && k != i ==> entry_step(#[trigger] m[k], keys, left) == (
            0int,
            0int,
        ),
    ensures
        stick_of(out, left).0 == v.x * STICK_MAX,
        stick_of(out, left).1 == v.y * STICK_MAX,
{
    lemma_stick_sum_of_two(m, keys, left, i, m.len() as int);
    let (ox, oy) = stick_of(out, left);
    assert(stick_sum(m, keys, left) == (v.x as int, v.y as int));
    let (x, y) = (v.x as int, v.y as int);
    assert(x * x + y * y == 1) by (nonlinear_arith)
        requires
            (x == 0 && (y == 1 || y == -1)) || (y == 0 && (x == 1 || x == -1)),
    ;
    if v.x >= 0 {
        lemma_scaled_unit(ox as int, v.x as int);
    } else {
        lemma_scaled_unit(-ox, -v.x);
    }
    if v.y >= 0 {
        lemma_scaled_unit(oy as int, v.y as int);
    } else {
        lemma_scaled_unit(-oy, -v.y);
    }
}

/// Lays the keyboard input over the state reported for controller
/// `dw_user_index`, as the configuration maps it. Only the first controller
/// is overlaid; the others are left as they are.
pub fn inject_keyboard_input(
    dw_user_index: u32,
    gamepad: &mut XInputGamepad,
    snapshot: &KeySnapshot,
    config: &Config,
)
    requires
        mapping_well_formed(config.keys_to_gamepad_map@),
    ensures
        dw_user_index == 0 ==> is_overlay_of(
            *final(gamepad),
            *old(gamepad),
            config.keys_to_gamepad_map@,
            snapshot.pressed_keys@,
        ),
        dw_user_index != 0 ==> *final(gamepad) == *old(gamepad),
{
    if dw_user_index == 0 {
        *gamepad = overlay(gamepad, snapshot, &config.keys_to_gamepad_map);
    }
}

/// Whether a mapping can be laid over a controller state by `overlay`.
pub fn mapping_is_well_formed(mapping: &Vec<(GamepadInput, VirtualKeyCode)>) -> (r: bool)
    ensures
        r == mapping_well_formed(mapping@),
{
    if mapping.len() > 0x7fff_ffff {
        return false;
    }
    let mut i: usize = 0;
    while i < mapping.len()
        invariant
            i <= mapping@.len(),
            forall|j: int| 0 <= j < i ==> (#[trigger] mapping@[j]).0.is_well_formed(),
        decreases mapping@.len() - i,
    {
        let ok = match mapping[i].0 {
            GamepadInput::LeftStick(v) => -1 <= v.x && v.x <= 1 && -1 <= v.y && v.y <= 1,
            GamepadInput::RightStick(v) => -1 <= v.x && v.x <= 1 && -1 <= v.y && v.y <= 1,
            _ => true,
        };
        if !ok {
            return false;
        }
        i += 1;
    }
    true
}

} // verus!
