//! Shape identifiers: the keys under which pre-baked outlines are stored.
//!
//! An identifier is a prefix, an underscore and the code of a pose. A pose between
//! two directions carries both codes with the index of the tween between them. The
//! text is held in a `heapless::String` of 32 bytes, so it never allocates.

use crate::gaze::{GazeDirection, ASCII_ZERO, LAST_LOOK_STEP_IDX};
use vstd::prelude::*;
use vstd::utf8::{encode_utf8, is_ascii_chars};

verus! {

/// The number of bytes that a shape identifier can hold.
pub const SHAPE_ID_CAPACITY: usize = 32;

/// A shape identifier: text of at most 32 bytes.
pub type ShapeIdentifier = heapless::String<32>;

/// `heapless::String`: text in a buffer of `N` bytes. What a value holds is known
/// only through `id_text`.
#[verifier::external_type_specification]
#[verifier::external_body]
pub struct ExBoundedString<const N: usize>(heapless::String<N>);

/// The text that a shape identifier holds.
pub uninterp spec fn id_text(id: heapless::String<32>) -> Seq<char>;

/// The number of bytes that a text takes in a shape identifier.
pub open spec fn byte_len(text: Seq<char>) -> nat {
    encode_utf8(text).len()
}

/// `heapless::String::new`: a string that holds no text.
#[verifier::external_body]
fn id_new() -> (id: heapless::String<32>)
    ensures
        id_text(id) == Seq::<char>::empty(),
{
    heapless::String::new()
}

/// `heapless::String::push_str`: appends `tail` if the bytes of both fit the
/// capacity, and otherwise fails and leaves the string as it was.
#[verifier::external_body]
fn id_push_str(id: &mut heapless::String<32>, tail: &str) -> (res: Result<(), ()>)
    ensures
        res is Ok <==> byte_len(id_text(*old(id))) + byte_len(tail@) <= 32,
        res is Ok ==> id_text(*final(id)) == id_text(*old(id)) + tail@,
        res is Err ==> id_text(*final(id)) == id_text(*old(id)),
{
    id.push_str(tail)
}

/// `heapless::String::push`: appends `c` if its bytes still fit the capacity, and
/// otherwise fails and leaves the string as it was.
#[verifier::external_body]
fn id_push(id: &mut heapless::String<32>, c: char) -> (res: Result<(), ()>)
    ensures
        res is Ok <==> byte_len(id_text(*old(id))) + byte_len(seq![c]) <= 32,
        res is Ok ==> id_text(*final(id)) == id_text(*old(id)) + seq![c],
        res is Err ==> id_text(*final(id)) == id_text(*old(id)),
{
    id.push(c)
}

/// The character that tags the tween shown at an intermediate look step: the
/// decimal digit of the step less one.
pub open spec fn tween_tag(look_step: u8) -> char {
    (ASCII_ZERO + look_step - 1) as char
}

/// True where a transition from `start` to `end` at `look_step` shows a tween pose,
/// neither the start pose nor the end pose.
pub open spec fn shows_tween(start: GazeDirection, end: GazeDirection, look_step: u8) -> bool {
    start != end && look_step != 0 && look_step != LAST_LOOK_STEP_IDX
}

/// The text of the identifier of the shape `prefix` on its way from `start` to `end`
/// at `look_step`.
///
/// Where the two directions are one, or the step is 0, the pose is the start pose.
/// At the last step it is the end pose. Between, it is the tween numbered from 0.
pub open spec fn asset_name(
    prefix: Seq<char>,
    start: GazeDirection,
    end: GazeDirection,
    look_step: u8,
) -> Seq<char> {
    if start == end || look_step == 0 {
        prefix + seq!['_'] + start.code()
    } else if look_step == LAST_LOOK_STEP_IDX {
        prefix + seq!['_'] + end.code()
    } else {
        prefix + seq!['_'] + start.code() + seq!['_', tween_tag(look_step), '_'] + end.code()
    }
}

/// The number of bytes that an identifier takes after its prefix.
pub open spec fn suffix_len(start: GazeDirection, end: GazeDirection, look_step: u8) -> nat {
    if shows_tween(start, end, look_step) {
        8
    } else {
        3
    }
}

/// True where the identifier of `prefix` on its way from `start` to `end` at
/// `look_step` can be built: both are directions, the look step does not pass the
/// last one unless both directions are one, and the identifier fits its 32 bytes.
pub open spec fn name_fits(
    prefix: Seq<char>,
    start: GazeDirection,
    end: GazeDirection,
    look_step: u8,
) -> bool {
    &&& start.is_direction()
    &&& end.is_direction()
    &&& (start == end || look_step <= LAST_LOOK_STEP_IDX)
    &&& byte_len(prefix) + suffix_len(start, end, look_step) <= 32
}

/// The bytes of a text of two parts are the bytes of the parts.
pub proof fn lemma_byte_len_concat(a: Seq<char>, b: Seq<char>)
    ensures
        byte_len(a + b) == byte_len(a) + byte_len(b),
    decreases a.len(),
{
    if a.len() == 0 {
        assert(a + b =~= b);
    } else {
        assert((a + b).drop_first() =~= a.drop_first() + b);
        assert((a + b)[0] == a[0]);
        lemma_byte_len_concat(a.drop_first(), b);
    }
}

/// A text of ASCII characters takes one byte for each.
pub proof fn lemma_byte_len_ascii(text: Seq<char>)
    requires
        is_ascii_chars(text),
    ensures
        byte_len(text) == text.len(),
{
    vstd::utf8::is_ascii_chars_encode_utf8(text);
}

/// The code of a direction is two ASCII digits.
pub proof fn lemma_code_is_ascii(d: GazeDirection)
    requires
        d.is_direction(),
    ensures
        d.code().len() == 2,
        is_ascii_chars(d.code()),
        byte_len(d.code()) == 2,
{
    assert(is_ascii_chars(d.code())) by {
        assert forall|i: int| 0 <= i < d.code().len() implies '\0' <= #[trigger] d.code()[i]
            <= '\u{7f}' by {
            if i == 0 {
            } else {
            }
        }
    }
    lemma_byte_len_ascii(d.code());
}

/// An identifier takes the bytes of its prefix and those of its suffix.
pub proof fn lemma_asset_name_len(
    prefix: Seq<char>,
    start: GazeDirection,
    end: GazeDirection,
    look_step: u8,
)
    requires
        start.is_direction(),
        end.is_direction(),
        start == end || look_step <= LAST_LOOK_STEP_IDX,
    ensures
        byte_len(asset_name(prefix, start, end, look_step)) == byte_len(prefix) + suffix_len(
            start,
            end,
            look_step,
        ),
{
    let sep = seq!['_'];
    assert(is_ascii_chars(sep));
    lemma_byte_len_ascii(sep);
    lemma_code_is_ascii(start);
    lemma_code_is_ascii(end);
    lemma_byte_len_concat(prefix, sep);
    if start == end || look_step == 0 {
        lemma_byte_len_concat(prefix + sep, start.code());
    } else if look_step == LAST_LOOK_STEP_IDX {
        lemma_byte_len_concat(prefix + sep, end.code());
    } else {
        let tag = seq!['_', tween_tag(look_step), '_'];
        assert(is_ascii_chars(tag)) by {
            assert forall|i: int| 0 <= i < tag.len() implies '\0' <= #[trigger] tag[i]
                <= '\u{7f}' by {
                if i == 0 {
                } else if i == 1 {
                } else {
                }
            }
        }
        lemma_byte_len_ascii(tag);
        lemma_byte_len_concat(prefix + sep, start.code());
        lemma_byte_len_concat(prefix + sep + start.code(), tag);
        lemma_byte_len_concat(prefix + sep + start.code() + tag, end.code());
    }
}

/// Tells whether the identifier of `prefix` on its way from `start` to `end` at
/// `look_step` can be built.
pub fn asset_name_fits(prefix: &str, start: GazeDirection, end: GazeDirection, look_step: u8) -> (fits:
    bool)
    ensures
        fits == name_fits(prefix@, start, end, look_step),
{
    if !start.is_a_direction() || !end.is_a_direction() {
        return false;
    }
    if start != end && look_step > LAST_LOOK_STEP_IDX {
        return false;
    }
    let suffix: usize = if start != end && look_step != 0 && look_step != LAST_LOOK_STEP_IDX {
        8
    } else {
        3
    };
    let len: usize = prefix.as_bytes().len();
    len <= SHAPE_ID_CAPACITY - suffix
}

/// Builds the identifier of the shape `prefix` on its way from `start_direction` to
/// `end_direction` at `look_step_idx`.
///
/// The identifier must fit its 32 bytes, and away from a pose that both directions
/// share the look step must not pass the last one.
pub fn stepped_asset_name_full(
    prefix: &str,
    start_direction: GazeDirection,
    end_direction: GazeDirection,
    look_step_idx: u8,
) -> (name: heapless::String<32>)
    requires
        name_fits(prefix@, start_direction, end_direction, look_step_idx),
    ensures
        id_text(name) == asset_name(prefix@, start_direction, end_direction, look_step_idx),
        byte_len(id_text(name)) == byte_len(prefix@) + suffix_len(
            start_direction,
            end_direction,
            look_step_idx,
        ),
{
    let ghost sep = seq!['_'];
    proof {
        assert(is_ascii_chars(sep));
        lemma_byte_len_ascii(sep);
        lemma_code_is_ascii(start_direction);
        lemma_code_is_ascii(end_direction);
        lemma_byte_len_concat(prefix@, sep);
        lemma_byte_len_concat(prefix@ + sep, start_direction.code());
        lemma_byte_len_concat(prefix@ + sep, end_direction.code());
        lemma_asset_name_len(prefix@, start_direction, end_direction, look_step_idx);
        assert(byte_len(Seq::<char>::empty()) == 0);
    }
    let mut s = id_new();
    id_push_str(&mut s, prefix).unwrap();
    assert(id_text(s) =~= prefix@);
    id_push(&mut s, '_').unwrap();
    assert(id_text(s) =~= prefix@ + sep);
    if end_direction != start_direction {
        if look_step_idx == 0 {
            id_push_str(&mut s, start_direction.to_digits()).unwrap();
        } else if look_step_idx == LAST_LOOK_STEP_IDX {
            id_push_str(&mut s, end_direction.to_digits()).unwrap();
        } else {
            let tween_idx: u8 = look_step_idx - 1;
            let tag: char = (ASCII_ZERO + tween_idx) as char;
            let ghost mid = seq!['_', tag, '_'];
            proof {
                assert(tag == tween_tag(look_step_idx));
                assert(is_ascii_chars(seq![tag]));
                lemma_byte_len_ascii(seq![tag]);
                lemma_byte_len_concat(prefix@ + sep + start_direction.code(), sep);
                lemma_byte_len_concat(prefix@ + sep + start_direction.code() + sep, seq![tag]);
                lemma_byte_len_concat(
                    prefix@ + sep + start_direction.code() + sep + seq![tag],
                    sep,
                );
                assert(prefix@ + sep + start_direction.code() + sep + seq![tag] + sep
                    =~= prefix@ + sep + start_direction.code() + mid);
            }
            id_push_str(&mut s, start_direction.to_digits()).unwrap();
            id_push(&mut s, '_').unwrap();
            id_push(&mut s, tag).unwrap();
            id_push(&mut s, '_').unwrap();
            assert(id_text(s) =~= prefix@ + sep + start_direction.code() + mid);
            id_push_str(&mut s, end_direction.to_digits()).unwrap();
        }
    } else {
        id_push_str(&mut s, start_direction.to_digits()).unwrap();
    }
    s
}

/// Builds the identifier of the shape `prefix` on its way from straight ahead to
/// `end_direction` at `look_step`.
pub fn stepped_asset_name(prefix: &str, end_direction: GazeDirection, look_step: u8) -> (name:
    heapless::String<32>)
    requires
        name_fits(prefix@, GazeDirection::StraightAhead, end_direction, look_step),
    ensures
        id_text(name) == asset_name(
            prefix@,
            GazeDirection::StraightAhead,
            end_direction,
            look_step,
        ),
{
    stepped_asset_name_full(prefix, GazeDirection::StraightAhead, end_direction, look_step)
}

/// Builds the identifier of a shape that has one pose only: its name as it stands.
pub fn plain_asset_name(name: &str) -> (id: heapless::String<32>)
    requires
        byte_len(name@) <= 32,
    ensures
        id_text(id) == name@,
{
    proof {
        assert(byte_len(Seq::<char>::empty()) == 0);
    }
    let mut s = id_new();
    id_push_str(&mut s, name).unwrap();
    assert(id_text(s) =~= name@);
    s
}

/// Where start and end are one direction, the identifier is the prefix, an
/// underscore and the code of that direction, whatever the look step.
pub proof fn lemma_name_of_shared_pose(prefix: Seq<char>, d: GazeDirection, look_step: u8)
    ensures
        asset_name(prefix, d, d, look_step) == prefix + seq!['_'] + d.code(),
{
}

/// At look step 0 the identifier names the start pose, and at the last look step
/// the end pose.
pub proof fn lemma_name_of_end_poses(prefix: Seq<char>, start: GazeDirection, end: GazeDirection)
    ensures
        asset_name(prefix, start, end, 0) == prefix + seq!['_'] + start.code(),
        start != end ==> asset_name(prefix, start, end, LAST_LOOK_STEP_IDX) == prefix + seq!['_']
            + end.code(),
{
}

/// Between the first and the last look step, the identifier of a transition between
/// two directions holds both codes, with the decimal digit of the step less one
/// between them.
pub proof fn lemma_name_of_tween(
    prefix: Seq<char>,
    start: GazeDirection,
    end: GazeDirection,
    look_step: u8,
)
    requires
        start != end,
        0 < look_step < LAST_LOOK_STEP_IDX,
    ensures
        asset_name(prefix, start, end, look_step) == prefix + seq!['_'] + start.code() + seq![
            '_',
            tween_tag(look_step),
            '_',
        ] + end.code(),
        look_step == 1 ==> tween_tag(look_step) == '0',
        look_step == 2 ==> tween_tag(look_step) == '1',
{
}

/// Two identifiers of tween poses with one prefix and one start are the same text
/// only if they show the same tween on the way to the same direction.
pub proof fn lemma_name_tells_pose(
    prefix: Seq<char>,
    start: GazeDirection,
    end_a: GazeDirection,
    step_a: u8,
    end_b: GazeDirection,
    step_b: u8,
)
    requires
        start.is_direction(),
        end_a.is_direction(),
        end_b.is_direction(),
        step_a <= LAST_LOOK_STEP_IDX,
        step_b <= LAST_LOOK_STEP_IDX,
        shows_tween(start, end_a, step_a),
        shows_tween(start, end_b, step_b),
        asset_name(prefix, start, end_a, step_a) == asset_name(prefix, start, end_b, step_b),
    ensures
        end_a == end_b,
        step_a == step_b,
{
    let a = asset_name(prefix, start, end_a, step_a);
    let b = asset_name(prefix, start, end_b, step_b);
    let n = prefix.len() as int;
    assert(a[n + 4] == tween_tag(step_a));
    assert(b[n + 4] == tween_tag(step_b));
    assert(a[n + 6] == end_a.code()[0]);
    assert(b[n + 6] == end_b.code()[0]);
    assert(a[n + 7] == end_a.code()[1]);
    assert(b[n + 7] == end_b.code()[1]);
    assert(end_a.code() =~= end_b.code());
    crate::gaze::lemma_code_unique(end_a, end_b);
}

} // verus!
