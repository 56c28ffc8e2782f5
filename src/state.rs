use vstd::prelude::*;

verus! {

/// A read-modify-write edit of one bit of the operating-state register.
#[derive(Clone, Copy, PartialEq, Eq, Debug, Structural)]
pub enum StateEdit {
    /// Sets the start-of-measurement bit (bit 7).
    StartMeasurement,
    /// Sets the power bit (bit 6).
    PowerUp,
    /// Clears the power bit (bit 6).
    PowerDown,
    /// Sets the software-reset bit (bit 3).
    SoftwareReset,
    /// Sets the enter-configuration-state bit (bit 1).
    ConfigurationState,
}

/// The bit of the operating-state register that `e` touches.
pub open spec fn edit_bit(e: StateEdit) -> u8 {
    match e {
        StateEdit::StartMeasurement => 7,
        StateEdit::PowerUp => 6,
        StateEdit::PowerDown => 6,
        StateEdit::SoftwareReset => 3,
        StateEdit::ConfigurationState => 1,
    }
}

/// The value, 0 or 1, that `e` gives its bit.
pub open spec fn edit_target(e: StateEdit) -> u8 {
    match e {
        StateEdit::PowerDown => 0,
        _ => 1,
    }
}

/// `b` with the bit of `e` set to the edit's target and every other bit kept.
pub open spec fn edited(e: StateEdit, b: u8) -> u8 {
    if edit_target(e) == 1 {
        b | (1u8 << edit_bit(e))
    } else {
        b & !(1u8 << edit_bit(e))
    }
}

/// Applies `e` to the operating-state byte `b`.
pub fn apply_edit(e: StateEdit, b: u8) -> (r: u8)
    ensures
        r == edited(e, b),
{
    match e {
        StateEdit::StartMeasurement => {
            assert(b | 0x80 == b | (1u8 << 7u8)) by (bit_vector);
            b | 0x80
        },
        StateEdit::PowerUp => {
            assert(b | 0x40 == b | (1u8 << 6u8)) by (bit_vector);
            b | 0x40
        },
        StateEdit::PowerDown => {
            assert(b & !0x40u8 == b & !(1u8 << 6u8)) by (bit_vector);
            b & !0x40u8
        },
        StateEdit::SoftwareReset => {
            assert(b | 0x08 == b | (1u8 << 3u8)) by (bit_vector);
            b | 0x08
        },
        StateEdit::ConfigurationState => {
            assert(b | 0x02 == b | (1u8 << 1u8)) by (bit_vector);
            b | 0x02
        },
    }
}

proof fn lemma_set_bit(b: u8, k: u8)
    by (bit_vector)
    requires
        k < 8,
    ensures
        (b | (1u8 << k)) >> k & 1 == 1,
        forall|j: u8| j < 8 && j != k ==> #[trigger] ((b | (1u8 << k)) >> j) & 1 == (b >> j) & 1,
        (b >> k) & 1 == 1 ==> b | (1u8 << k) == b,
{
}

proof fn lemma_clear_bit(b: u8, k: u8)
    by (bit_vector)
    requires
        k < 8,
    ensures
        (b & !(1u8 << k)) >> k & 1 == 0,
        forall|j: u8| j < 8 && j != k ==> #[trigger] ((b & !(1u8 << k)) >> j) & 1 == (b >> j) & 1,
        (b >> k) & 1 == 0 ==> b & !(1u8 << k) == b,
{
}

/// An edit gives its own bit the edit's target value, leaves the other seven bits as they
/// were, and writes back the byte unchanged when its bit already holds the target.
pub proof fn law_edit_changes_one_bit(e: StateEdit, b: u8)
    ensures
        crate::codec::bit_of(edited(e, b), edit_bit(e)) == edit_target(e),
        forall|j: u8|
            j < 8 && j != edit_bit(e) ==> #[trigger] crate::codec::bit_of(edited(e, b), j)
                == crate::codec::bit_of(b, j),
        crate::codec::bit_of(b, edit_bit(e)) == edit_target(e) ==> edited(e, b) == b,
{
    if edit_target(e) == 1 {
        lemma_set_bit(b, edit_bit(e));
    } else {
        lemma_clear_bit(b, edit_bit(e));
    }
}

} // verus!
