use crate::keys::same_text;
use vstd::prelude::*;

verus! {

/// A direction on a thumb stick, in whole units on each axis.
#[derive(Clone, Copy, Debug, PartialEq, Eq, Structural)]
pub struct Vec2 {
    pub x: i32,
    pub y: i32,
}

impl Vec2 {
    pub fn new(x: i32, y: i32) -> (r: Vec2)
        ensures
            r.x == x,
            r.y == y,
    {
        Vec2 { x, y }
    }

    /// Adds another vector to this one.
    pub fn add_assign(&mut self, rhs: &Vec2)
        requires
            i32::MIN <= old(self).x + rhs.x <= i32::MAX,
            i32::MIN <= old(self).y + rhs.y <= i32::MAX,
        ensures
            final(self).x == old(self).x + rhs.x,
            final(self).y == old(self).y + rhs.y,
    {
        self.x = self.x + rhs.x;
        self.y = self.y + rhs.y;
    }

    /// The vector of the same direction and of length `STICK_MAX`, each
    /// coordinate rounded toward zero.
    pub fn normalize(&self) -> (r: Vec2)
        requires
            self.x != 0 || self.y != 0,
        ensures
            is_scaled_axis(r.x as int, self.x as int, self.magnitude_squared()),
            is_scaled_axis(r.y as int, self.y as int, self.magnitude_squared()),
            -STICK_MAX <= r.x <= STICK_MAX,
            -STICK_MAX <= r.y <= STICK_MAX,
    {
        let ax: u64 = if self.x < 0 { (-(self.x as i64)) as u64 } else { self.x as u64 };
        let ay: u64 = if self.y < 0 { (-(self.y as i64)) as u64 } else { self.y as u64 };
        proof {
            assert(ax * ax <= 0x4000_0000_0000_0000) by (nonlinear_arith)
                requires ax <= 0x8000_0000;
            assert(ay * ay <= 0x4000_0000_0000_0000) by (nonlinear_arith)
                requires ay <= 0x8000_0000;
            assert((ax * ax) as int == (self.x as int) * (self.x as int)) by (nonlinear_arith)
                requires ax as int == self.x || ax as int == -self.x;
            assert((ay * ay) as int == (self.y as int) * (self.y as int)) by (nonlinear_arith)
                requires ay as int == self.y || ay as int == -self.y;
        }
        let n: u64 = ax * ax + ay * ay;
        proof {
            assert(ax != 0 ==> ax * ax > 0) by (nonlinear_arith);
            assert(ay != 0 ==> ay * ay > 0) by (nonlinear_arith);
        }
        let qx = scaled_length(ax, n);
        let qy = scaled_length(ay, n);
        let x = if self.x < 0 { -qx } else { qx };
        let y = if self.y < 0 { -qy } else { qy };
        Vec2 { x, y }
    }

    /// The square of the vector's length.
    pub open spec fn magnitude_squared(self) -> int {
        (self.x as int) * (self.x as int) + (self.y as int) * (self.y as int)
    }

    /// Whether each coordinate is -1, 0 or 1, as for the directions that
    /// configuration names stand for.
    pub open spec fn is_unit_step(self) -> bool {
        -1 <= self.x <= 1 && -1 <= self.y <= 1
    }
}

/// The largest value of a stick axis.
pub const STICK_MAX: i32 = 32767;

/// `q` is the length `c` scaled by `STICK_MAX / sqrt(n)`, rounded down:
/// the largest `q` with `q * sqrt(n) <= STICK_MAX * c`.
pub open spec fn is_scaled_length(q: int, c: int, n: int) -> bool {
    &&& 0 <= q
    &&& q * q * n <= (STICK_MAX * STICK_MAX) * (c * c)
    &&& (q + 1) * (q + 1) * n > (STICK_MAX * STICK_MAX) * (c * c)
}

/// `out` is the coordinate `c` of a vector of squared length `n` once the
/// vector is scaled to length `STICK_MAX`, rounded toward zero.
pub open spec fn is_scaled_axis(out: int, c: int, n: int) -> bool {
    if c >= 0 {
        is_scaled_length(out, c, n)
    } else {
        is_scaled_length(-out, -c, n)
    }
}

/// The scaled length is unique: `is_scaled_length` pins one value.
pub proof fn lemma_scaled_length_unique(q1: int, q2: int, c: int, n: int)
    requires
        is_scaled_length(q1, c, n),
        is_scaled_length(q2, c, n),
        n > 0,
    ensures
        q1 == q2,
{
    if q1 < q2 {
        assert((q1 + 1) * (q1 + 1) * n <= q2 * q2 * n) by (nonlinear_arith)
            requires 0 <= q1 < q2, n > 0;
    } else if q2 < q1 {
        assert((q2 + 1) * (q2 + 1) * n <= q1 * q1 * n) by (nonlinear_arith)
            requires 0 <= q2 < q1, n > 0;
    }
}

/// Computes the scaled length of a coordinate `c` of a vector of squared
/// length `n`, by bisection.
fn scaled_length(c: u64, n: u64) -> (q: i32)
    requires
        0 < n,
        c * c <= n,
        n <= 0x8000_0000_0000_0000,
    ensures
        is_scaled_length(q as int, c as int, n as int),
        0 <= q <= STICK_MAX,
{
    let ghost big: int = (STICK_MAX * STICK_MAX) * (c * c);
    let target: u128 = (32767u128 * 32767u128) * ((c as u128) * (c as u128));
    let mut lo: u128 = 0;
    let mut hi: u128 = 32768;
    proof {
        assert(target == big);
        assert(big >= 0) by (nonlinear_arith)
            requires big == (32767 * 32767) * (c * c);
        assert(lo * lo * (n as int) == 0) by (nonlinear_arith)
            requires lo == 0;
        assert(32768 * 32768 * (n as int) > big) by (nonlinear_arith)
            requires c * c <= n, 0 < n, big == (32767 * 32767) * (c * c);
    }
    while hi - lo > 1
        invariant
            lo < hi <= 32768,
            target == big,
            lo * lo * (n as int) <= big,
            hi * hi * (n as int) > big,
            n <= 0x8000_0000_0000_0000,
        decreases hi - lo,
    {
        let mid: u128 = lo + (hi - lo) / 2;
        proof {
            assert(mid * mid <= 32768 * 32768) by (nonlinear_arith)
                requires mid <= 32768;
            assert(mid * mid * (n as int) <= 32768 * 32768 * 0x8000_0000_0000_0000) by (nonlinear_arith)
                requires mid <= 32768, n <= 0x8000_0000_0000_0000;
        }
        if mid * mid * (n as u128) <= target {
            lo = mid;
        } else {
            hi = mid;
        }
    }
    proof {
        assert(lo <= 32767);
    }
    lo as i32
}

/// What a pressed key drives on the gamepad.
#[derive(Clone, Copy, Debug, PartialEq, Eq, Structural)]
pub enum GamepadInput {
    /// A flag to set in the button field.
    Button(u16),
    /// Drives the left analog trigger to its maximum.
    LeftTrigger,
    /// Drives the right analog trigger to its maximum.
    RightTrigger,
    /// A direction to add to the left stick.
    LeftStick(Vec2),
    /// A direction to add to the right stick.
    RightStick(Vec2),
}

/// The gamepad input named by an upper-case configuration key.
pub open spec fn target_of(name: Seq<char>) -> Option<GamepadInput> {
    if name == "DPAD_UP"@ {
        Some(GamepadInput::Button(0x0001))
    } else if name == "DPAD_DOWN"@ {
        Some(GamepadInput::Button(0x0002))
    } else if name == "DPAD_LEFT"@ {
        Some(GamepadInput::Button(0x0004))
    } else if name == "DPAD_RIGHT"@ {
        Some(GamepadInput::Button(0x0008))
    } else if name == "A"@ {
        Some(GamepadInput::Button(0x1000))
    } else if name == "B"@ {
        Some(GamepadInput::Button(0x2000))
    } else if name == "X"@ {
        Some(GamepadInput::Button(0x4000))
    } else if name == "Y"@ {
        Some(GamepadInput::Button(0x8000))
    } else if name == "START"@ {
        Some(GamepadInput::Button(0x0010))
    } else if name == "BACK"@ {
        Some(GamepadInput::Button(0x0020))
    } else if name == "LEFT_STICK_UP"@ {
        Some(GamepadInput::LeftStick(Vec2 { x: 0, y: 1 }))
    } else if name == "LEFT_STICK_DOWN"@ {
        Some(GamepadInput::LeftStick(Vec2 { x: 0, y: -1i32 }))
    } else if name == "LEFT_STICK_LEFT"@ {
        Some(GamepadInput::LeftStick(Vec2 { x: -1i32, y: 0 }))
    } else if name == "LEFT_STICK_RIGHT"@ {
        Some(GamepadInput::LeftStick(Vec2 { x: 1, y: 0 }))
    } else if name == "LEFT_STICK_BUTTON"@ {
        Some(GamepadInput::Button(0x0040))
    } else if name == "RIGHT_STICK_UP"@ {
        Some(GamepadInput::RightStick(Vec2 { x: 0, y: 1 }))
    } else if name == "RIGHT_STICK_DOWN"@ {
        Some(GamepadInput::RightStick(Vec2 { x: 0, y: -1i32 }))
    } else if name == "RIGHT_STICK_LEFT"@ {
        Some(GamepadInput::RightStick(Vec2 { x: -1i32, y: 0 }))
    } else if name == "RIGHT_STICK_RIGHT"@ {
        Some(GamepadInput::RightStick(Vec2 { x: 1, y: 0 }))
    } else if name == "RIGHT_STICK_BUTTON"@ {
        Some(GamepadInput::Button(0x0080))
    } else if name == "LEFT_SHOULDER"@ {
        Some(GamepadInput::Button(0x0100))
    } else if name == "RIGHT_SHOULDER"@ {
        Some(GamepadInput::Button(0x0200))
    } else if name == "LEFT_TRIGGER"@ {
        Some(GamepadInput::LeftTrigger)
    } else if name == "RIGHT_TRIGGER"@ {
        Some(GamepadInput::RightTrigger)
    } else {
        None
    }
}

impl GamepadInput {
    /// Reads a gamepad input from its configuration name (already trimmed and
    /// upper-cased).
    pub fn from_str(s: &str) -> (r: Result<GamepadInput, ()>)
        ensures
            r matches Ok(g) ==> target_of(s@) == Some(g),
            r is Err ==> target_of(s@) is None,
    {
        if same_text(s, "DPAD_UP") {
            return Ok(GamepadInput::Button(0x0001));
        }
        if same_text(s, "DPAD_DOWN") {
            return Ok(GamepadInput::Button(0x0002));
        }
        if same_text(s, "DPAD_LEFT") {
            return Ok(GamepadInput::Button(0x0004));
        }
        if same_text(s, "DPAD_RIGHT") {
            return Ok(GamepadInput::Button(0x0008));
        }
        if same_text(s, "A") {
            return Ok(GamepadInput::Button(0x1000));
        }
        if same_text(s, "B") {
            return Ok(GamepadInput::Button(0x2000));
        }
        if same_text(s, "X") {
            return Ok(GamepadInput::Button(0x4000));
        }
        if same_text(s, "Y") {
            return Ok(GamepadInput::Button(0x8000));
        }
        if same_text(s, "START") {
            return Ok(GamepadInput::Button(0x0010));
        }
        if same_text(s, "BACK") {
            return Ok(GamepadInput::Button(0x0020));
        }
        if same_text(s, "LEFT_STICK_UP") {
            return Ok(GamepadInput::LeftStick(Vec2 { x: 0, y: 1 }));
        }
        if same_text(s, "LEFT_STICK_DOWN") {
            return Ok(GamepadInput::LeftStick(Vec2 { x: 0, y: -1 }));
        }
        if same_text(s, "LEFT_STICK_LEFT") {
            return Ok(GamepadInput::LeftStick(Vec2 { x: -1, y: 0 }));
        }
        if same_text(s, "LEFT_STICK_RIGHT") {
            return Ok(GamepadInput::LeftStick(Vec2 { x: 1, y: 0 }));
        }
        if same_text(s, "LEFT_STICK_BUTTON") {
            return Ok(GamepadInput::Button(0x0040));
        }
        if same_text(s, "RIGHT_STICK_UP") {
            return Ok(GamepadInput::RightStick(Vec2 { x: 0, y: 1 }));
        }
        if same_text(s, "RIGHT_STICK_DOWN") {
            return Ok(GamepadInput::RightStick(Vec2 { x: 0, y: -1 }));
        }
        if same_text(s, "RIGHT_STICK_LEFT") {
            return Ok(GamepadInput::RightStick(Vec2 { x: -1, y: 0 }));
        }
        if same_text(s, "RIGHT_STICK_RIGHT") {
            return Ok(GamepadInput::RightStick(Vec2 { x: 1, y: 0 }));
        }
        if same_text(s, "RIGHT_STICK_BUTTON") {
            return Ok(GamepadInput::Button(0x0080));
        }
        if same_text(s, "LEFT_SHOULDER") {
            return Ok(GamepadInput::Button(0x0100));
        }
        if same_text(s, "RIGHT_SHOULDER") {
            return Ok(GamepadInput::Button(0x0200));
        }
        if same_text(s, "LEFT_TRIGGER") {
            return Ok(GamepadInput::LeftTrigger);
        }
        if same_text(s, "RIGHT_TRIGGER") {
            return Ok(GamepadInput::RightTrigger);
        }
        Err(())
    }

    /// Whether a stick direction, if this is one, is a unit step.
    pub open spec fn is_well_formed(self) -> bool {
        match self {
            GamepadInput::LeftStick(v) => v.is_unit_step(),
            GamepadInput::RightStick(v) => v.is_unit_step(),
            _ => true,
        }
    }
}

/// The state of a controller's inputs, laid out as the controller API reports it.
#[derive(Clone, Copy, Debug, PartialEq, Eq, Structural)]
pub struct XInputGamepad {
    pub w_buttons: u16,
    pub b_left_trigger: u8,
    pub b_right_trigger: u8,
    pub s_thumb_lx: i16,
    pub s_thumb_ly: i16,
    pub s_thumb_rx: i16,
    pub s_thumb_ry: i16,
}

/// A controller state with its packet sequence number.
#[derive(Clone, Copy, Debug, PartialEq, Eq, Structural)]
pub struct XInputState {
    pub dw_packet_number: u32,
    pub gamepad: XInputGamepad,
}

/// The speeds asked of a controller's two vibration motors.
#[derive(Clone, Copy, Debug, PartialEq, Eq, Structural)]
pub struct XInputVibration {
    pub w_left_motor_speed: u16,
    pub w_right_motor_speed: u16,
}

} // verus!
