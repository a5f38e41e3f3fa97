//! Input API decisions: which code a "last press" query reports.
use vstd::prelude::*;

verus! {

/// The keyboard key codes that a last-press query looks at, in the order it looks.
pub const KEY_LIST: [i32; 109] = [
        39, 44, 45, 46, 47, 48, 49, 50, 51, 52, 53, 54, 55, 56, 57, 59,
        61, 65, 66, 67, 68, 69, 70, 71, 72, 73, 74, 75, 76, 77, 78, 79,
        80, 81, 82, 83, 84, 85, 86, 87, 88, 89, 90, 91, 92, 93, 96, 32,
        256, 257, 258, 259, 260, 261, 262, 263, 264, 265, 266, 267, 268, 269, 280, 281,
        282, 283, 284, 290, 291, 292, 293, 294, 295, 296, 297, 298, 299, 300, 301, 340,
        341, 342, 343, 344, 345, 346, 347, 348, 320, 321, 322, 323, 324, 325, 326, 327,
        328, 329, 330, 331, 332, 333, 334, 335, 336, 4, 5, 24, 25,
];

/// The mouse button codes that a last-press query looks at, in the order it looks.
pub const MOUSE_BUTTON_LIST: [i32; 7] = [0, 1, 2, 3, 4, 5, 6];

/// The pad button codes that a last-press query looks at, in the order it looks.
pub const PAD_BUTTON_LIST: [i32; 17] = [1, 2, 3, 4, 5, 6, 7, 8, 9, 10, 11, 12, 13, 14, 15, 16, 17];

/// The first code, in list order, whose button is pressed.
pub open spec fn first_pressed_spec(codes: Seq<i32>, pressed: Seq<bool>) -> Option<i32>
    decreases codes.len(),
{
    if codes.len() == 0 || pressed.len() == 0 {
        None
    } else if pressed[0] {
        Some(codes[0])
    } else {
        first_pressed_spec(codes.drop_first(), pressed.drop_first())
    }
}

/// The first of `codes` whose button is pressed, given whether each one is.
pub fn first_pressed(codes: &[i32], pressed: &[bool]) -> (code: Option<i32>)
    requires
        codes@.len() == pressed@.len(),
    ensures
        code == first_pressed_spec(codes@, pressed@),
{
    let mut i: usize = 0;
    assert(codes@.skip(0) =~= codes@);
    assert(pressed@.skip(0) =~= pressed@);
    while i < codes.len()
        invariant
            codes@.len() == pressed@.len(),
            i <= codes@.len(),
            first_pressed_spec(codes@, pressed@) == first_pressed_spec(
                codes@.skip(i as int),
                pressed@.skip(i as int),
            ),
        decreases codes@.len() - i,
    {
        proof {
            assert(codes@.skip(i as int).drop_first() =~= codes@.skip(i + 1));
            assert(pressed@.skip(i as int).drop_first() =~= pressed@.skip(i + 1));
        }
        if pressed[i] {
            return Some(codes[i]);
        }
        i = i + 1;
    }
    None
}

/// The last character typed, from the code the input layer reports: none for code 0.
pub fn last_character(code: i32) -> (character: Option<i32>)
    ensures
        character == (if code == 0 {
            None
        } else {
            Some(code)
        }),
{
    if code == 0 {
        None
    } else {
        Some(code)
    }
}

/// The first pressed code: a code is reported only when it is pressed and no code before it
/// is; nothing is reported only when no code is pressed.
pub proof fn lemma_first_pressed(codes: Seq<i32>, pressed: Seq<bool>)
    requires
        codes.len() == pressed.len(),
    ensures
        first_pressed_spec(codes, pressed) is None <==> forall|i: int| 0 <= i < codes.len() ==> !#[trigger] pressed[i],
        first_pressed_spec(codes, pressed) is Some ==> exists|i: int|
            0 <= i < codes.len() && #[trigger] pressed[i] && codes[i] == first_pressed_spec(codes, pressed)->0
                && forall|j: int| 0 <= j < i ==> !pressed[j],
    decreases codes.len(),
{
    if codes.len() > 0 {
        lemma_first_pressed(codes.drop_first(), pressed.drop_first());
        if pressed[0] {
            assert(pressed[0] && codes[0] == first_pressed_spec(codes, pressed)->0);
        } else {
            if first_pressed_spec(codes, pressed) is None {
                assert forall|i: int| 0 <= i < codes.len() implies !#[trigger] pressed[i] by {
                    if i > 0 {
                        assert(pressed[i] == pressed.drop_first()[i - 1]);
                    }
                }
            } else {
                let k = choose|k: int|
                    0 <= k < codes.len() - 1 && #[trigger] pressed.drop_first()[k] && codes.drop_first()[k]
                        == first_pressed_spec(codes, pressed)->0 && forall|j: int|
                        0 <= j < k ==> !pressed.drop_first()[j];
                assert(pressed[k + 1]);
                assert forall|j: int| 0 <= j < k + 1 implies !pressed[j] by {
                    if j > 0 {
                        assert(pressed[j] == pressed.drop_first()[j - 1]);
                    }
                }
            }
            if forall|i: int| 0 <= i < codes.len() ==> !#[trigger] pressed[i] {
                assert forall|i: int| 0 <= i < codes.len() - 1 implies !#[trigger] pressed.drop_first()[i] by {
                    assert(pressed.drop_first()[i] == pressed[i + 1]);
                }
            }
        }
    }
}

} // verus!
