//! The actions a player can hold down, and the bitmask they travel in.

use vstd::prelude::*;

verus! {

/// One action of a player.
#[derive(Clone, Copy, Debug, PartialEq, Eq, Structural)]
pub enum PlayerInput {
    NoInput,
    Up,
    Right,
    Down,
    Left,
    AimPositive,
    AimNegative,
    LoadCannon,
    Fire,
}

/// The first value that is no bitmask of actions.
pub const INPUT_LIMIT: i32 = 256;

impl PlayerInput {
    /// The value of the action's bit in a bitmask; 0 for no action.
    pub open spec fn mask(self) -> int {
        match self {
            PlayerInput::NoInput => 0,
            PlayerInput::Up => 1,
            PlayerInput::Right => 2,
            PlayerInput::Down => 4,
            PlayerInput::Left => 8,
            PlayerInput::AimPositive => 16,
            PlayerInput::AimNegative => 32,
            PlayerInput::LoadCannon => 64,
            PlayerInput::Fire => 128,
        }
    }

    /// The value of the action's bit in a bitmask; 0 for no action.
    pub fn bit(&self) -> (mask: i32)
        ensures
            mask == self.mask(),
    {
        match self {
            PlayerInput::NoInput => 0,
            PlayerInput::Up => 1,
            PlayerInput::Right => 2,
            PlayerInput::Down => 4,
            PlayerInput::Left => 8,
            PlayerInput::AimPositive => 16,
            PlayerInput::AimNegative => 32,
            PlayerInput::LoadCannon => 64,
            PlayerInput::Fire => 128,
        }
    }
}

/// Whether the bit of value `mask`, a power of two, is set in `bits`.
pub open spec fn bit_is_set(bits: int, mask: int) -> bool {
    (bits / mask) % 2 == 1
}

/// The actions a player holds down at one moment.
#[derive(Clone, Copy, Debug, PartialEq, Eq, Structural)]
pub struct InputSet {
    pub up: bool,
    pub right: bool,
    pub down: bool,
    pub left: bool,
    pub aim_positive: bool,
    pub aim_negative: bool,
    pub load_cannon: bool,
    pub fire: bool,
}

impl InputSet {
    /// No action at all.
    pub open spec fn none() -> InputSet {
        InputSet {
            up: false,
            right: false,
            down: false,
            left: false,
            aim_positive: false,
            aim_negative: false,
            load_cannon: false,
            fire: false,
        }
    }

    /// Whether the action is among those held down. No action is held down
    /// in every set.
    pub open spec fn holds(self, input: PlayerInput) -> bool {
        match input {
            PlayerInput::NoInput => true,
            PlayerInput::Up => self.up,
            PlayerInput::Right => self.right,
            PlayerInput::Down => self.down,
            PlayerInput::Left => self.left,
            PlayerInput::AimPositive => self.aim_positive,
            PlayerInput::AimNegative => self.aim_negative,
            PlayerInput::LoadCannon => self.load_cannon,
            PlayerInput::Fire => self.fire,
        }
    }

    /// The bitmask of the set: the sum of the bits of its actions.
    pub open spec fn bits(self) -> int {
        (if self.up { 1int } else { 0 }) + (if self.right { 2int } else { 0 }) + (if self.down {
            4int
        } else {
            0
        }) + (if self.left { 8int } else { 0 }) + (if self.aim_positive { 16int } else { 0 }) + (
        if self.aim_negative { 32int } else { 0 }) + (if self.load_cannon { 64int } else { 0 }) + (
        if self.fire { 128int } else { 0 })
    }

    /// The set a bitmask stands for. A value with a bit outside the eight
    /// actions, or a negative one, stands for no set.
    pub open spec fn decode(bits: int) -> Option<InputSet> {
        if 0 <= bits < INPUT_LIMIT {
            Some(
                InputSet {
                    up: bit_is_set(bits, 1),
                    right: bit_is_set(bits, 2),
                    down: bit_is_set(bits, 4),
                    left: bit_is_set(bits, 8),
                    aim_positive: bit_is_set(bits, 16),
                    aim_negative: bit_is_set(bits, 32),
                    load_cannon: bit_is_set(bits, 64),
                    fire: bit_is_set(bits, 128),
                },
            )
        } else {
            None
        }
    }

    /// Whether no action is held down.
    pub open spec fn is_none(self) -> bool {
        self == InputSet::none()
    }

    /// The set without any action.
    pub fn empty() -> (set: InputSet)
        ensures
            set == InputSet::none(),
    {
        InputSet {
            up: false,
            right: false,
            down: false,
            left: false,
            aim_positive: false,
            aim_negative: false,
            load_cannon: false,
            fire: false,
        }
    }

    /// Whether the action is among those held down.
    pub fn contains(&self, player_input: PlayerInput) -> (held: bool)
        ensures
            held == self.holds(player_input),
    {
        match player_input {
            PlayerInput::NoInput => true,
            PlayerInput::Up => self.up,
            PlayerInput::Right => self.right,
            PlayerInput::Down => self.down,
            PlayerInput::Left => self.left,
            PlayerInput::AimPositive => self.aim_positive,
            PlayerInput::AimNegative => self.aim_negative,
            PlayerInput::LoadCannon => self.load_cannon,
            PlayerInput::Fire => self.fire,
        }
    }

    /// Whether no action is held down.
    pub fn is_empty(&self) -> (empty: bool)
        ensures
            empty == self.is_none(),
    {
        !(self.up || self.right || self.down || self.left || self.aim_positive
            || self.aim_negative || self.load_cannon || self.fire)
    }

    /// Reads a bitmask. Returns `None` for a value that is no bitmask of the
    /// eight actions.
    pub fn from_bits(bits: i32) -> (set: Option<InputSet>)
        ensures
            set == InputSet::decode(bits as int),
            set.is_some() <==> 0 <= bits < INPUT_LIMIT,
    {
        if bits < 0 || bits >= INPUT_LIMIT {
            return None;
        }
        Some(
            InputSet {
                up: bits % 2 == 1,
                right: (bits / 2) % 2 == 1,
                down: (bits / 4) % 2 == 1,
                left: (bits / 8) % 2 == 1,
                aim_positive: (bits / 16) % 2 == 1,
                aim_negative: (bits / 32) % 2 == 1,
                load_cannon: (bits / 64) % 2 == 1,
                fire: (bits / 128) % 2 == 1,
            },
        )
    }

    /// The bitmask of the set.
    pub fn to_bits(&self) -> (bits: i32)
        ensures
            bits == self.bits(),
            0 <= bits < INPUT_LIMIT,
    {
        let mut bits: i32 = 0;
        if self.up {
            bits = bits + 1;
        }
        if self.right {
            bits = bits + 2;
        }
        if self.down {
            bits = bits + 4;
        }
        if self.left {
            bits = bits + 8;
        }
        if self.aim_positive {
            bits = bits + 16;
        }
        if self.aim_negative {
            bits = bits + 32;
        }
        if self.load_cannon {
            bits = bits + 64;
        }
        if self.fire {
            bits = bits + 128;
        }
        bits
    }
}

/// Reading the bitmask of a set gives the set back.
pub proof fn lemma_decode_bits(set: InputSet)
    ensures
        0 <= set.bits() < INPUT_LIMIT,
        InputSet::decode(set.bits()) == Some(set),
{
}

/// Writing the set that a bitmask stands for gives the bitmask back, and
/// the empty set is the one that 0 stands for.
pub proof fn lemma_bits_decode(bits: int)
    requires
        0 <= bits < INPUT_LIMIT,
    ensures
        InputSet::decode(bits).unwrap().bits() == bits,
        InputSet::decode(bits).unwrap().is_none() <==> bits == 0,
{
    // Peel the bits off one at a time, lowest first.
    let q1 = bits / 2;
    let q2 = q1 / 2;
    let q3 = q2 / 2;
    let q4 = q3 / 2;
    let q5 = q4 / 2;
    let q6 = q5 / 2;
    let q7 = q6 / 2;
    assert(q2 == bits / 4 && q3 == bits / 8 && q4 == bits / 16);
    assert(q5 == bits / 32 && q6 == bits / 64 && q7 == bits / 128);
    assert(bits == 2 * q1 + bits % 2);
    assert(q1 == 2 * q2 + q1 % 2);
    assert(q2 == 2 * q3 + q2 % 2);
    assert(q3 == 2 * q4 + q3 % 2);
    assert(q4 == 2 * q5 + q4 % 2);
    assert(q5 == 2 * q6 + q5 % 2);
    assert(q6 == 2 * q7 + q6 % 2);
    assert(q7 == q7 % 2);
}

} // verus!
