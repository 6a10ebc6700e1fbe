//! Fixed 8-bit register layouts with named bits.
//!
//! Each type holds only its defined bits: a value built from a raw byte drops
//! the undefined ones, and none is ever set.
use vstd::prelude::*;

verus! {

/// The status register of the controller, read from the command register.
#[derive(Clone, Copy, Debug, PartialEq, Eq)]
pub struct ControllerStatus {
    bits: u8,
}

impl View for ControllerStatus {
    type V = u8;

    closed spec fn view(&self) -> u8 {
        self.bits
    }
}

impl ControllerStatus {
    /// There is a byte to read in the data register.
    pub const OUTPUT_FULL: u8 = 0b0000_0001;

    /// The controller has not yet taken the last byte written to it.
    pub const INPUT_FULL: u8 = 0b0000_0010;

    /// Set by the firmware once the power-on self-test has passed.
    pub const SYSTEM_FLAG: u8 = 0b0000_0100;

    /// The last byte written was for the controller rather than for a device.
    pub const INPUT_IS_COMMAND: u8 = 0b0000_1000;

    /// The keyboard is inhibited.
    pub const KEYBOARD_LOCK: u8 = 0b0001_0000;

    /// The byte in the data register came from the mouse.
    pub const MOUSE_OUTPUT_FULL: u8 = 0b0010_0000;

    /// A device did not answer a command or a transfer in time.
    pub const TIMEOUT_ERR: u8 = 0b0100_0000;

    /// A device transfer had a parity error.
    pub const PARITY_ERR: u8 = 0b1000_0000;

    /// Every defined bit.
    pub const ALL: u8 = 0b1111_1111;

    #[verifier::type_invariant]
    spec fn defined_only(&self) -> bool {
        self.bits & !Self::ALL == 0
    }

    /// No bit set.
    pub fn empty() -> (r: Self)
        ensures
            r@ == 0,
    {
        proof {
            assert(0u8 & !Self::ALL == 0u8) by (bit_vector);
        }
        ControllerStatus { bits: 0 }
    }

    /// Every defined bit set.
    pub fn all() -> (r: Self)
        ensures
            r@ == Self::ALL,
    {
        proof {
            assert(Self::ALL & !Self::ALL == 0u8) by (bit_vector);
        }
        ControllerStatus { bits: Self::ALL }
    }

    /// The raw byte.
    pub fn bits(&self) -> (r: u8)
        ensures
            r == self@,
            r & !Self::ALL == 0,
    {
        proof {
            use_type_invariant(self);
        }
        self.bits
    }

    /// The defined bits of `bits`; the others are dropped.
    pub fn from_bits_truncate(bits: u8) -> (r: Self)
        ensures
            r@ == bits & Self::ALL,
    {
        proof {
            assert((bits & 0b1111_1111u8) & !0b1111_1111u8 == 0u8) by (bit_vector);
        }
        ControllerStatus { bits: bits & Self::ALL }
    }

    /// Whether every bit of `flags` is set.
    pub fn contains(&self, flags: u8) -> (r: bool)
        ensures
            r == (self@ & flags == flags),
    {
        self.bits & flags == flags
    }

    /// Sets the defined bits of `flags` when `value` holds, clears the bits of
    /// `flags` otherwise.
    pub fn set(&mut self, flags: u8, value: bool)
        ensures
            final(self)@ == if value {
                (old(self)@ | flags) & Self::ALL
            } else {
                old(self)@ & !flags
            },
    {
        proof {
            use_type_invariant(&*self);
        }
        let old_bits = self.bits;
        let bits = if value {
            (old_bits | flags) & Self::ALL
        } else {
            old_bits & !flags
        };
        proof {
            assert(((old_bits | flags) & 0b1111_1111u8) & !0b1111_1111u8 == 0u8) by (bit_vector);
            assert(old_bits & !0b1111_1111u8 == 0u8 ==> (old_bits & !flags) & !0b1111_1111u8 == 0u8) by (bit_vector);
        }
        *self = ControllerStatus { bits };
    }
}

/// The configuration byte of the controller: byte 0 of its internal RAM.
#[derive(Clone, Copy, Debug, PartialEq, Eq)]
pub struct ControllerConfig {
    bits: u8,
}

impl View for ControllerConfig {
    type V = u8;

    closed spec fn view(&self) -> u8 {
        self.bits
    }
}

impl ControllerConfig {
    /// The keyboard raises interrupts.
    pub const ENABLE_KEYBOARD_INTERRUPT: u8 = 0b0000_0001;

    /// The mouse raises interrupts.
    pub const ENABLE_MOUSE_INTERRUPT: u8 = 0b0000_0010;

    /// Sets the system flag of the status register.
    pub const SET_SYSTEM_FLAG: u8 = 0b0000_0100;

    /// The keyboard interface is disabled by holding its clock line low.
    pub const DISABLE_KEYBOARD: u8 = 0b0001_0000;

    /// The mouse interface is disabled by holding its clock line low.
    pub const DISABLE_MOUSE: u8 = 0b0010_0000;

    /// Keyboard scancodes are translated to set 1.
    pub const ENABLE_TRANSLATE: u8 = 0b0100_0000;

    /// Every defined bit.
    pub const ALL: u8 = 0b0111_0111;

    #[verifier::type_invariant]
    spec fn defined_only(&self) -> bool {
        self.bits & !Self::ALL == 0
    }

    /// No bit set.
    pub fn empty() -> (r: Self)
        ensures
            r@ == 0,
    {
        proof {
            assert(0u8 & !Self::ALL == 0u8) by (bit_vector);
        }
        ControllerConfig { bits: 0 }
    }

    /// Every defined bit set.
    pub fn all() -> (r: Self)
        ensures
            r@ == Self::ALL,
    {
        proof {
            assert(Self::ALL & !Self::ALL == 0u8) by (bit_vector);
        }
        ControllerConfig { bits: Self::ALL }
    }

    /// The raw byte.
    pub fn bits(&self) -> (r: u8)
        ensures
            r == self@,
            r & !Self::ALL == 0,
    {
        proof {
            use_type_invariant(self);
        }
        self.bits
    }

    /// The defined bits of `bits`; the others are dropped.
    pub fn from_bits_truncate(bits: u8) -> (r: Self)
        ensures
            r@ == bits & Self::ALL,
    {
        proof {
            assert((bits & 0b0111_0111u8) & !0b0111_0111u8 == 0u8) by (bit_vector);
        }
        ControllerConfig { bits: bits & Self::ALL }
    }

    /// Whether every bit of `flags` is set.
    pub fn contains(&self, flags: u8) -> (r: bool)
        ensures
            r == (self@ & flags == flags),
    {
        self.bits & flags == flags
    }

    /// Sets the defined bits of `flags` when `value` holds, clears the bits of
    /// `flags` otherwise.
    pub fn set(&mut self, flags: u8, value: bool)
        ensures
            final(self)@ == if value {
                (old(self)@ | flags) & Self::ALL
            } else {
                old(self)@ & !flags
            },
    {
        proof {
            use_type_invariant(&*self);
        }
        let old_bits = self.bits;
        let bits = if value {
            (old_bits | flags) & Self::ALL
        } else {
            old_bits & !flags
        };
        proof {
            assert(((old_bits | flags) & 0b0111_0111u8) & !0b0111_0111u8 == 0u8) by (bit_vector);
            assert(old_bits & !0b0111_0111u8 == 0u8 ==> (old_bits & !flags) & !0b0111_0111u8 == 0u8) by (bit_vector);
        }
        *self = ControllerConfig { bits };
    }
}

/// The input port of the controller.
#[derive(Clone, Copy, Debug, PartialEq, Eq)]
pub struct ControllerInput {
    bits: u8,
}

impl View for ControllerInput {
    type V = u8;

    closed spec fn view(&self) -> u8 {
        self.bits
    }
}

impl ControllerInput {
    /// Keyboard data line.
    pub const KEYBOARD_DATA: u8 = 0b0000_0001;

    /// Mouse data line.
    pub const MOUSE_DATA: u8 = 0b0000_0010;

    /// An extra 256 KB of system board RAM is enabled.
    pub const ENABLE_EXTRA_RAM: u8 = 0b0001_0000;

    /// Manufacturing jumper setting for keyboard testing.
    pub const NO_MANUFACTURING_JUMPER: u8 = 0b0010_0000;

    /// Display type bit.
    pub const MONOCHROME_DISPLAY: u8 = 0b0100_0000;

    /// The keyboard is enabled.
    pub const KEYBOARD_ENABLED: u8 = 0b1000_0000;

    /// Every defined bit.
    pub const ALL: u8 = 0b1111_0011;

    #[verifier::type_invariant]
    spec fn defined_only(&self) -> bool {
        self.bits & !Self::ALL == 0
    }

    /// No bit set.
    pub fn empty() -> (r: Self)
        ensures
            r@ == 0,
    {
        proof {
            assert(0u8 & !Self::ALL == 0u8) by (bit_vector);
        }
        ControllerInput { bits: 0 }
    }

    /// Every defined bit set.
    pub fn all() -> (r: Self)
        ensures
            r@ == Self::ALL,
    {
        proof {
            assert(Self::ALL & !Self::ALL == 0u8) by (bit_vector);
        }
        ControllerInput { bits: Self::ALL }
    }

    /// The raw byte.
    pub fn bits(&self) -> (r: u8)
        ensures
            r == self@,
            r & !Self::ALL == 0,
    {
        proof {
            use_type_invariant(self);
        }
        self.bits
    }

    /// The defined bits of `bits`; the others are dropped.
    pub fn from_bits_truncate(bits: u8) -> (r: Self)
        ensures
            r@ == bits & Self::ALL,
    {
        proof {
            assert((bits & 0b1111_0011u8) & !0b1111_0011u8 == 0u8) by (bit_vector);
        }
        ControllerInput { bits: bits & Self::ALL }
    }

    /// Whether every bit of `flags` is set.
    pub fn contains(&self, flags: u8) -> (r: bool)
        ensures
            r == (self@ & flags == flags),
    {
        self.bits & flags == flags
    }

    /// Sets the defined bits of `flags` when `value` holds, clears the bits of
    /// `flags` otherwise.
    pub fn set(&mut self, flags: u8, value: bool)
        ensures
            final(self)@ == if value {
                (old(self)@ | flags) & Self::ALL
            } else {
                old(self)@ & !flags
            },
    {
        proof {
            use_type_invariant(&*self);
        }
        let old_bits = self.bits;
        let bits = if value {
            (old_bits | flags) & Self::ALL
        } else {
            old_bits & !flags
        };
        proof {
            assert(((old_bits | flags) & 0b1111_0011u8) & !0b1111_0011u8 == 0u8) by (bit_vector);
            assert(old_bits & !0b1111_0011u8 == 0u8 ==> (old_bits & !flags) & !0b1111_0011u8 == 0u8) by (bit_vector);
        }
        *self = ControllerInput { bits };
    }
}

/// The output port of the controller.
#[derive(Clone, Copy, Debug, PartialEq, Eq)]
pub struct ControllerOutput {
    bits: u8,
}

impl View for ControllerOutput {
    type V = u8;

    closed spec fn view(&self) -> u8 {
        self.bits
    }
}

impl ControllerOutput {
    /// Resets the CPU.
    pub const SYSTEM_RESET: u8 = 0b0000_0001;

    /// The 20th address line is enabled.
    pub const A20_GATE: u8 = 0b0000_0010;

    /// The mouse data line is pulled low.
    pub const MOUSE_DATA: u8 = 0b0000_0100;

    /// The mouse clock line is pulled low.
    pub const MOUSE_CLOCK: u8 = 0b0000_1000;

    /// The keyboard raises IRQ 1 when the output buffer is full.
    pub const KEYBOARD_INTERRUPT: u8 = 0b0001_0000;

    /// The mouse raises IRQ 12 when the output buffer is full.
    pub const MOUSE_INTERRUPT: u8 = 0b0010_0000;

    /// The keyboard clock line is pulled low.
    pub const KEYBOARD_CLOCK: u8 = 0b0100_0000;

    /// The keyboard data line is pulled low.
    pub const KEYBOARD_DATA: u8 = 0b1000_0000;

    /// Every defined bit.
    pub const ALL: u8 = 0b1111_1111;

    #[verifier::type_invariant]
    spec fn defined_only(&self) -> bool {
        self.bits & !Self::ALL == 0
    }

    /// No bit set.
    pub fn empty() -> (r: Self)
        ensures
            r@ == 0,
    {
        proof {
            assert(0u8 & !Self::ALL == 0u8) by (bit_vector);
        }
        ControllerOutput { bits: 0 }
    }

    /// Every defined bit set.
    pub fn all() -> (r: Self)
        ensures
            r@ == Self::ALL,
    {
        proof {
            assert(Self::ALL & !Self::ALL == 0u8) by (bit_vector);
        }
        ControllerOutput { bits: Self::ALL }
    }

    /// The raw byte.
    pub fn bits(&self) -> (r: u8)
        ensures
            r == self@,
            r & !Self::ALL == 0,
    {
        proof {
            use_type_invariant(self);
        }
        self.bits
    }

    /// The defined bits of `bits`; the others are dropped.
    pub fn from_bits_truncate(bits: u8) -> (r: Self)
        ensures
            r@ == bits & Self::ALL,
    {
        proof {
            assert((bits & 0b1111_1111u8) & !0b1111_1111u8 == 0u8) by (bit_vector);
        }
        ControllerOutput { bits: bits & Self::ALL }
    }

    /// Whether every bit of `flags` is set.
    pub fn contains(&self, flags: u8) -> (r: bool)
        ensures
            r == (self@ & flags == flags),
    {
        self.bits & flags == flags
    }

    /// Sets the defined bits of `flags` when `value` holds, clears the bits of
    /// `flags` otherwise.
    pub fn set(&mut self, flags: u8, value: bool)
        ensures
            final(self)@ == if value {
                (old(self)@ | flags) & Self::ALL
            } else {
                old(self)@ & !flags
            },
    {
        proof {
            use_type_invariant(&*self);
        }
        let old_bits = self.bits;
        let bits = if value {
            (old_bits | flags) & Self::ALL
        } else {
            old_bits & !flags
        };
        proof {
            assert(((old_bits | flags) & 0b1111_1111u8) & !0b1111_1111u8 == 0u8) by (bit_vector);
            assert(old_bits & !0b1111_1111u8 == 0u8 ==> (old_bits & !flags) & !0b1111_1111u8 == 0u8) by (bit_vector);
        }
        *self = ControllerOutput { bits };
    }
}

/// The LEDs of a keyboard.
#[derive(Clone, Copy, Debug, PartialEq, Eq)]
pub struct KeyboardLeds {
    bits: u8,
}

impl View for KeyboardLeds {
    type V = u8;

    closed spec fn view(&self) -> u8 {
        self.bits
    }
}

impl KeyboardLeds {
    /// Scroll lock.
    pub const SCROLL_LOCK: u8 = 0b001;

    /// Num lock.
    pub const NUM_LOCK: u8 = 0b010;

    /// Caps lock.
    pub const CAPS_LOCK: u8 = 0b100;

    /// Every defined bit.
    pub const ALL: u8 = 0b111;

    #[verifier::type_invariant]
    spec fn defined_only(&self) -> bool {
        self.bits & !Self::ALL == 0
    }

    /// No bit set.
    pub fn empty() -> (r: Self)
        ensures
            r@ == 0,
    {
        proof {
            assert(0u8 & !Self::ALL == 0u8) by (bit_vector);
        }
        KeyboardLeds { bits: 0 }
    }

    /// Every defined bit set.
    pub fn all() -> (r: Self)
        ensures
            r@ == Self::ALL,
    {
        proof {
            assert(Self::ALL & !Self::ALL == 0u8) by (bit_vector);
        }
        KeyboardLeds { bits: Self::ALL }
    }

    /// The raw byte.
    pub fn bits(&self) -> (r: u8)
        ensures
            r == self@,
            r & !Self::ALL == 0,
    {
        proof {
            use_type_invariant(self);
        }
        self.bits
    }

    /// The defined bits of `bits`; the others are dropped.
    pub fn from_bits_truncate(bits: u8) -> (r: Self)
        ensures
            r@ == bits & Self::ALL,
    {
        proof {
            assert((bits & 0b111u8) & !0b111u8 == 0u8) by (bit_vector);
        }
        KeyboardLeds { bits: bits & Self::ALL }
    }

    /// Whether every bit of `flags` is set.
    pub fn contains(&self, flags: u8) -> (r: bool)
        ensures
            r == (self@ & flags == flags),
    {
        self.bits & flags == flags
    }

    /// Sets the defined bits of `flags` when `value` holds, clears the bits of
    /// `flags` otherwise.
    pub fn set(&mut self, flags: u8, value: bool)
        ensures
            final(self)@ == if value {
                (old(self)@ | flags) & Self::ALL
            } else {
                old(self)@ & !flags
            },
    {
        proof {
            use_type_invariant(&*self);
        }
        let old_bits = self.bits;
        let bits = if value {
            (old_bits | flags) & Self::ALL
        } else {
            old_bits & !flags
        };
        proof {
            assert(((old_bits | flags) & 0b111u8) & !0b111u8 == 0u8) by (bit_vector);
            assert(old_bits & !0b111u8 == 0u8 ==> (old_bits & !flags) & !0b111u8 == 0u8) by (bit_vector);
        }
        *self = KeyboardLeds { bits };
    }
}

/// The first byte of a mouse status packet.
#[derive(Clone, Copy, Debug, PartialEq, Eq)]
pub struct MouseStatus {
    bits: u8,
}

impl View for MouseStatus {
    type V = u8;

    closed spec fn view(&self) -> u8 {
        self.bits
    }
}

impl MouseStatus {
    /// The right button is down.
    pub const RIGHT_BUTTON_PRESSED: u8 = 0b0000_0001;

    /// The middle button is down.
    pub const MIDDLE_BUTTON_PRESSED: u8 = 0b0000_0010;

    /// The left button is down.
    pub const LEFT_BUTTON_PRESSED: u8 = 0b0000_0100;

    /// Scaling is 2:1.
    pub const SCALING_2_TO_1: u8 = 0b0001_0000;

    /// Data reporting is enabled.
    pub const DATA_REPORTING_ENABLED: u8 = 0b0010_0000;

    /// The mouse is in remote mode.
    pub const REMOTE_MODE_ENABLED: u8 = 0b0100_0000;

    /// Every defined bit.
    pub const ALL: u8 = 0b0111_0111;

    #[verifier::type_invariant]
    spec fn defined_only(&self) -> bool {
        self.bits & !Self::ALL == 0
    }

    /// No bit set.
    pub fn empty() -> (r: Self)
        ensures
            r@ == 0,
    {
        proof {
            assert(0u8 & !Self::ALL == 0u8) by (bit_vector);
        }
        MouseStatus { bits: 0 }
    }

    /// Every defined bit set.
    pub fn all() -> (r: Self)
        ensures
            r@ == Self::ALL,
    {
        proof {
            assert(Self::ALL & !Self::ALL == 0u8) by (bit_vector);
        }
        MouseStatus { bits: Self::ALL }
    }

    /// The raw byte.
    pub fn bits(&self) -> (r: u8)
        ensures
            r == self@,
            r & !Self::ALL == 0,
    {
        proof {
            use_type_invariant(self);
        }
        self.bits
    }

    /// The defined bits of `bits`; the others are dropped.
    pub fn from_bits_truncate(bits: u8) -> (r: Self)
        ensures
            r@ == bits & Self::ALL,
    {
        proof {
            assert((bits & 0b0111_0111u8) & !0b0111_0111u8 == 0u8) by (bit_vector);
        }
        MouseStatus { bits: bits & Self::ALL }
    }

    /// Whether every bit of `flags` is set.
    pub fn contains(&self, flags: u8) -> (r: bool)
        ensures
            r == (self@ & flags == flags),
    {
        self.bits & flags == flags
    }

    /// Sets the defined bits of `flags` when `value` holds, clears the bits of
    /// `flags` otherwise.
    pub fn set(&mut self, flags: u8, value: bool)
        ensures
            final(self)@ == if value {
                (old(self)@ | flags) & Self::ALL
            } else {
                old(self)@ & !flags
            },
    {
        proof {
            use_type_invariant(&*self);
        }
        let old_bits = self.bits;
        let bits = if value {
            (old_bits | flags) & Self::ALL
        } else {
            old_bits & !flags
        };
        proof {
            assert(((old_bits | flags) & 0b0111_0111u8) & !0b0111_0111u8 == 0u8) by (bit_vector);
            assert(old_bits & !0b0111_0111u8 == 0u8 ==> (old_bits & !flags) & !0b0111_0111u8 == 0u8) by (bit_vector);
        }
        *self = MouseStatus { bits };
    }
}

/// The first byte of a mouse movement packet.
#[derive(Clone, Copy, Debug, PartialEq, Eq)]
pub struct MouseMovement {
    bits: u8,
}

impl View for MouseMovement {
    type V = u8;

    closed spec fn view(&self) -> u8 {
        self.bits
    }
}

impl MouseMovement {
    /// The left button is down.
    pub const LEFT_BUTTON_PRESSED: u8 = 0b0000_0001;

    /// The right button is down.
    pub const RIGHT_BUTTON_PRESSED: u8 = 0b0000_0010;

    /// The middle button is down.
    pub const MIDDLE_BUTTON_PRESSED: u8 = 0b0000_0100;

    /// Sign bit of the horizontal movement.
    pub const X_SIGN_BIT: u8 = 0b0001_0000;

    /// Sign bit of the vertical movement.
    pub const Y_SIGN_BIT: u8 = 0b0010_0000;

    /// The horizontal movement overflowed.
    pub const X_OVERFLOW: u8 = 0b0100_0000;

    /// The vertical movement overflowed.
    pub const Y_OVERFLOW: u8 = 0b1000_0000;

    /// Every defined bit.
    pub const ALL: u8 = 0b1111_0111;

    #[verifier::type_invariant]
    spec fn defined_only(&self) -> bool {
        self.bits & !Self::ALL == 0
    }

    /// No bit set.
    pub fn empty() -> (r: Self)
        ensures
            r@ == 0,
    {
        proof {
            assert(0u8 & !Self::ALL == 0u8) by (bit_vector);
        }
        MouseMovement { bits: 0 }
    }

    /// Every defined bit set.
    pub fn all() -> (r: Self)
        ensures
            r@ == Self::ALL,
    {
        proof {
            assert(Self::ALL & !Self::ALL == 0u8) by (bit_vector);
        }
        MouseMovement { bits: Self::ALL }
    }

    /// The raw byte.
    pub fn bits(&self) -> (r: u8)
        ensures
            r == self@,
            r & !Self::ALL == 0,
    {
        proof {
            use_type_invariant(self);
        }
        self.bits
    }

    /// The defined bits of `bits`; the others are dropped.
    pub fn from_bits_truncate(bits: u8) -> (r: Self)
        ensures
            r@ == bits & Self::ALL,
    {
        proof {
            assert((bits & 0b1111_0111u8) & !0b1111_0111u8 == 0u8) by (bit_vector);
        }
        MouseMovement { bits: bits & Self::ALL }
    }

    /// Whether every bit of `flags` is set.
    pub fn contains(&self, flags: u8) -> (r: bool)
        ensures
            r == (self@ & flags == flags),
    {
        self.bits & flags == flags
    }

    /// Sets the defined bits of `flags` when `value` holds, clears the bits of
    /// `flags` otherwise.
    pub fn set(&mut self, flags: u8, value: bool)
        ensures
            final(self)@ == if value {
                (old(self)@ | flags) & Self::ALL
            } else {
                old(self)@ & !flags
            },
    {
        proof {
            use_type_invariant(&*self);
        }
        let old_bits = self.bits;
        let bits = if value {
            (old_bits | flags) & Self::ALL
        } else {
            old_bits & !flags
        };
        proof {
            assert(((old_bits | flags) & 0b1111_0111u8) & !0b1111_0111u8 == 0u8) by (bit_vector);
            assert(old_bits & !0b1111_0111u8 == 0u8 ==> (old_bits & !flags) & !0b1111_0111u8 == 0u8) by (bit_vector);
        }
        *self = MouseMovement { bits };
    }
}

} // verus!
