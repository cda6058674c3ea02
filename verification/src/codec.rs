//! The wire codec: the fixed-size binary state frame and the short control
//! commands.
//!
//! A state frame is 26 bytes: six little-endian 32-bit words followed by two
//! score bytes. The six words are IEEE-754 single-precision numbers; this
//! module carries each as its 32-bit pattern and never interprets it, so a
//! frame survives a round trip bit for bit.

use vstd::prelude::*;
use crate::error::SessionError;

verus! {

/// The exact length of a binary state frame.
pub const FRAME_LEN: usize = 26;

/// The ASCII code of `U`, sent while "up" is held.
pub const UP_TOKEN: u8 = 85;

/// The ASCII code of `D`, sent while "down" is held.
pub const DOWN_TOKEN: u8 = 68;

/// One decoded state update. The six positional fields hold the bit patterns
/// of single-precision numbers (`f32::from_bits` gives the number); positions
/// are percentages of the playing field's axis.
#[derive(Clone, Copy, Debug, PartialEq, Eq, Structural)]
pub struct GameStateFrame {
    pub left_paddle_y: u32,
    pub right_paddle_y: u32,
    pub ball_x: u32,
    pub ball_y: u32,
    pub ball_speed_x: u32,
    pub ball_speed_y: u32,
    pub player1_score: u8,
    pub player2_score: u8,
}

/// The directions that are held down when a send tick samples the input.
#[derive(Clone, Copy, Debug, PartialEq, Eq, Structural)]
pub struct ControlCommand {
    pub up: bool,
    pub down: bool,
}

/// The 32-bit word that four bytes spell in little-endian order, starting at
/// `at`.
pub open spec fn spec_word_at(bytes: Seq<u8>, at: int) -> u32
    recommends
        0 <= at,
        at + 4 <= bytes.len(),
{
    (bytes[at] as int + 256 * (bytes[at + 1] as int) + 65536 * (bytes[at + 2] as int) + 16777216
        * (bytes[at + 3] as int)) as u32
}

/// The four bytes of a 32-bit word, least significant first.
pub open spec fn spec_word_bytes(word: u32) -> Seq<u8> {
    seq![
        (word % 256) as u8,
        (word / 256 % 256) as u8,
        (word / 65536 % 256) as u8,
        (word / 16777216) as u8,
    ]
}

/// The frame that 26 bytes spell.
pub open spec fn spec_decode_state(bytes: Seq<u8>) -> GameStateFrame
    recommends
        bytes.len() == FRAME_LEN,
{
    GameStateFrame {
        left_paddle_y: spec_word_at(bytes, 0),
        right_paddle_y: spec_word_at(bytes, 4),
        ball_x: spec_word_at(bytes, 8),
        ball_y: spec_word_at(bytes, 12),
        ball_speed_x: spec_word_at(bytes, 16),
        ball_speed_y: spec_word_at(bytes, 20),
        player1_score: bytes[24],
        player2_score: bytes[25],
    }
}

/// The 26 bytes that spell a frame.
pub open spec fn spec_encode_state(frame: GameStateFrame) -> Seq<u8> {
    spec_word_bytes(frame.left_paddle_y) + spec_word_bytes(frame.right_paddle_y) + spec_word_bytes(
        frame.ball_x,
    ) + spec_word_bytes(frame.ball_y) + spec_word_bytes(frame.ball_speed_x) + spec_word_bytes(
        frame.ball_speed_y,
    ) + seq![frame.player1_score, frame.player2_score]
}

/// The bytes of a control command: `U` if up is held, then `D` if down is
/// held. Nothing held gives the empty message, which is sent all the same.
pub open spec fn spec_encode_command(held: ControlCommand) -> Seq<u8> {
    if held.up && held.down {
        seq![UP_TOKEN, DOWN_TOKEN]
    } else if held.up {
        seq![UP_TOKEN]
    } else if held.down {
        seq![DOWN_TOKEN]
    } else {
        Seq::<u8>::empty()
    }
}

/// Four bytes are the base-256 digits of the number that they spell.
proof fn lemma_word_parts(b0: int, b1: int, b2: int, b3: int)
    requires
        0 <= b0 < 256,
        0 <= b1 < 256,
        0 <= b2 < 256,
        0 <= b3 < 256,
    ensures
        ({
            let word = b0 + 256 * b1 + 65536 * b2 + 16777216 * b3;
            &&& 0 <= word < 0x1_0000_0000
            &&& word % 256 == b0
            &&& word / 256 % 256 == b1
            &&& word / 65536 % 256 == b2
            &&& word / 16777216 == b3
        }),
{
    let word = b0 + 256 * b1 + 65536 * b2 + 16777216 * b3;
    assert(word == b0 + 256 * (b1 + 256 * b2 + 65536 * b3));
    assert(word / 256 == b1 + 256 * b2 + 65536 * b3);
    assert(word == (b0 + 256 * b1) + 65536 * (b2 + 256 * b3));
    assert(word / 65536 == b2 + 256 * b3);
    assert(word == (b0 + 256 * b1 + 65536 * b2) + 16777216 * b3);
}

/// A word's four bytes spell that word again.
pub proof fn lemma_word_round_trip(word: u32)
    ensures
        spec_word_bytes(word).len() == 4,
        spec_word_at(spec_word_bytes(word), 0) == word,
{
    let w = word as int;
    let q1 = w / 256;
    let q2 = w / 65536;
    let q3 = w / 16777216;
    assert(q1 / 256 == q2 && q2 / 256 == q3) by {
        assert(w == 256 * q1 + w % 256);
        assert(q1 == 256 * (q1 / 256) + q1 % 256);
        assert(w == 65536 * (q1 / 256) + (256 * (q1 % 256) + w % 256));
        let q = q1 / 256;
        assert(q == 256 * (q / 256) + q % 256);
        assert(w == 16777216 * (q / 256) + (65536 * (q % 256) + 256 * (q1 % 256) + w % 256));
    }
    assert(w == w % 256 + 256 * (q1 % 256) + 65536 * (q2 % 256) + 16777216 * q3);
}

/// Four bytes are the bytes of the word that they spell.
pub proof fn lemma_bytes_of_word_at(bytes: Seq<u8>, at: int)
    requires
        0 <= at,
        at + 4 <= bytes.len(),
    ensures
        spec_word_bytes(spec_word_at(bytes, at)) == bytes.subrange(at, at + 4),
{
    lemma_word_parts(
        bytes[at] as int,
        bytes[at + 1] as int,
        bytes[at + 2] as int,
        bytes[at + 3] as int,
    );
    assert(spec_word_bytes(spec_word_at(bytes, at)) =~= bytes.subrange(at, at + 4));
}

/// Where the six words and the two scores stand in an encoded frame.
proof fn lemma_encoded_layout(frame: GameStateFrame)
    ensures
        spec_encode_state(frame).len() == FRAME_LEN,
        spec_encode_state(frame).subrange(0, 4) == spec_word_bytes(frame.left_paddle_y),
        spec_encode_state(frame).subrange(4, 8) == spec_word_bytes(frame.right_paddle_y),
        spec_encode_state(frame).subrange(8, 12) == spec_word_bytes(frame.ball_x),
        spec_encode_state(frame).subrange(12, 16) == spec_word_bytes(frame.ball_y),
        spec_encode_state(frame).subrange(16, 20) == spec_word_bytes(frame.ball_speed_x),
        spec_encode_state(frame).subrange(20, 24) == spec_word_bytes(frame.ball_speed_y),
        spec_encode_state(frame)[24] == frame.player1_score,
        spec_encode_state(frame)[25] == frame.player2_score,
{
    let word_left = spec_word_bytes(frame.left_paddle_y);
    let word_right = spec_word_bytes(frame.right_paddle_y);
    let word_ball_x = spec_word_bytes(frame.ball_x);
    let word_ball_y = spec_word_bytes(frame.ball_y);
    let word_speed_x = spec_word_bytes(frame.ball_speed_x);
    let word_speed_y = spec_word_bytes(frame.ball_speed_y);
    let tail = seq![frame.player1_score, frame.player2_score];
    let first_two = word_left + word_right;
    let first_three = first_two + word_ball_x;
    let first_four = first_three + word_ball_y;
    let first_five = first_four + word_speed_x;
    let first_six = first_five + word_speed_y;
    let all = first_six + tail;
    assert(all == spec_encode_state(frame));
    assert(first_two.len() == 8 && first_three.len() == 12 && first_four.len() == 16);
    assert(first_five.len() == 20 && first_six.len() == 24);
    assert(all.subrange(0, 24) =~= first_six);
    assert(first_six.subrange(0, 20) =~= first_five);
    assert(first_five.subrange(0, 16) =~= first_four);
    assert(first_four.subrange(0, 12) =~= first_three);
    assert(first_three.subrange(0, 8) =~= first_two);
    assert(all.subrange(20, 24) =~= word_speed_y);
    assert(all.subrange(16, 20) =~= first_six.subrange(16, 20));
    assert(first_six.subrange(16, 20) =~= word_speed_x);
    assert(all.subrange(12, 16) =~= first_five.subrange(12, 16));
    assert(first_five.subrange(12, 16) =~= word_ball_y);
    assert(all.subrange(8, 12) =~= first_four.subrange(8, 12));
    assert(first_four.subrange(8, 12) =~= word_ball_x);
    assert(all.subrange(4, 8) =~= first_three.subrange(4, 8));
    assert(first_three.subrange(4, 8) =~= word_right);
    assert(all.subrange(0, 4) =~= first_two.subrange(0, 4));
    assert(first_two.subrange(0, 4) =~= word_left);
}

/// The word at `at` depends on the four bytes from `at` alone.
proof fn lemma_word_at_subrange(bytes: Seq<u8>, at: int)
    requires
        0 <= at,
        at + 4 <= bytes.len(),
    ensures
        spec_word_at(bytes, at) == spec_word_at(bytes.subrange(at, at + 4), 0),
{
}

/// Decoding undoes encoding: every frame comes back from its 26 bytes
/// unchanged.
pub proof fn lemma_state_round_trip(frame: GameStateFrame)
    ensures
        spec_encode_state(frame).len() == FRAME_LEN,
        spec_decode_state(spec_encode_state(frame)) == frame,
{
    let bytes = spec_encode_state(frame);
    lemma_encoded_layout(frame);
    lemma_word_round_trip(frame.left_paddle_y);
    lemma_word_round_trip(frame.right_paddle_y);
    lemma_word_round_trip(frame.ball_x);
    lemma_word_round_trip(frame.ball_y);
    lemma_word_round_trip(frame.ball_speed_x);
    lemma_word_round_trip(frame.ball_speed_y);
    lemma_word_at_subrange(bytes, 0);
    lemma_word_at_subrange(bytes, 4);
    lemma_word_at_subrange(bytes, 8);
    lemma_word_at_subrange(bytes, 12);
    lemma_word_at_subrange(bytes, 16);
    lemma_word_at_subrange(bytes, 20);
}

/// Encoding undoes decoding: 26 bytes come back from the frame that they
/// spell unchanged.
pub proof fn lemma_bytes_round_trip(bytes: Seq<u8>)
    requires
        bytes.len() == FRAME_LEN,
    ensures
        spec_encode_state(spec_decode_state(bytes)) == bytes,
{
    lemma_bytes_of_word_at(bytes, 0);
    lemma_bytes_of_word_at(bytes, 4);
    lemma_bytes_of_word_at(bytes, 8);
    lemma_bytes_of_word_at(bytes, 12);
    lemma_bytes_of_word_at(bytes, 16);
    lemma_bytes_of_word_at(bytes, 20);
    let frame = spec_decode_state(bytes);
    lemma_encoded_layout(frame);
    let again = spec_encode_state(frame);
    assert forall|i: int| 0 <= i < 26 implies again[i] == bytes[i] by {
        if i < 4 {
            assert(again.subrange(0, 4)[i] == bytes.subrange(0, 4)[i]);
        } else if i < 8 {
            assert(again.subrange(4, 8)[i - 4] == bytes.subrange(4, 8)[i - 4]);
        } else if i < 12 {
            assert(again.subrange(8, 12)[i - 8] == bytes.subrange(8, 12)[i - 8]);
        } else if i < 16 {
            assert(again.subrange(12, 16)[i - 12] == bytes.subrange(12, 16)[i - 12]);
        } else if i < 20 {
            assert(again.subrange(16, 20)[i - 16] == bytes.subrange(16, 20)[i - 16]);
        } else if i < 24 {
            assert(again.subrange(20, 24)[i - 20] == bytes.subrange(20, 24)[i - 20]);
        }
    }
    assert(again =~= bytes);
}

/// Reads the little-endian word that starts at `at`.
fn word_at(bytes: &[u8], at: usize) -> (word: u32)
    requires
        at + 4 <= bytes@.len(),
    ensures
        word == spec_word_at(bytes@, at as int),
{
    let b0: u32 = bytes[at] as u32;
    let b1: u32 = bytes[at + 1] as u32;
    let b2: u32 = bytes[at + 2] as u32;
    let b3: u32 = bytes[at + 3] as u32;
    b0 + 256 * b1 + 65536 * b2 + 16777216 * b3
}

/// Appends the four bytes of `word`, least significant first.
fn push_word(out: &mut Vec<u8>, word: u32)
    ensures
        final(out)@ == old(out)@ + spec_word_bytes(word),
{
    out.push((word % 256) as u8);
    out.push((word / 256 % 256) as u8);
    out.push((word / 65536 % 256) as u8);
    out.push((word / 16777216) as u8);
    assert(out@ =~= old(out)@ + spec_word_bytes(word));
}

/// Decodes one binary message. A message of exactly 26 bytes always decodes;
/// any other length is a malformed frame.
pub fn decode_state(bytes: &[u8]) -> (decoded: Result<GameStateFrame, SessionError>)
    ensures
        bytes@.len() == FRAME_LEN ==> decoded == Ok::<GameStateFrame, SessionError>(
            spec_decode_state(bytes@),
        ),
        bytes@.len() != FRAME_LEN ==> decoded == Err::<GameStateFrame, SessionError>(
            SessionError::MalformedFrame,
        ),
{
    if bytes.len() != FRAME_LEN {
        return Err(SessionError::MalformedFrame);
    }
    Ok(
        GameStateFrame {
            left_paddle_y: word_at(bytes, 0),
            right_paddle_y: word_at(bytes, 4),
            ball_x: word_at(bytes, 8),
            ball_y: word_at(bytes, 12),
            ball_speed_x: word_at(bytes, 16),
            ball_speed_y: word_at(bytes, 20),
            player1_score: bytes[24],
            player2_score: bytes[25],
        },
    )
}

/// Encodes a frame as the 26 bytes that `decode_state` reads back as the same
/// frame. The client only ever decodes; this is the other direction, for a
/// peer or a harness that produces frames.
pub fn encode_state(frame: &GameStateFrame) -> (bytes: Vec<u8>)
    ensures
        bytes@ == spec_encode_state(*frame),
        bytes@.len() == FRAME_LEN,
        spec_decode_state(bytes@) == *frame,
{
    let mut out: Vec<u8> = Vec::new();
    push_word(&mut out, frame.left_paddle_y);
    push_word(&mut out, frame.right_paddle_y);
    push_word(&mut out, frame.ball_x);
    push_word(&mut out, frame.ball_y);
    push_word(&mut out, frame.ball_speed_x);
    push_word(&mut out, frame.ball_speed_y);
    out.push(frame.player1_score);
    out.push(frame.player2_score);
    proof {
        assert(out@ =~= spec_encode_state(*frame));
        lemma_state_round_trip(*frame);
    }
    out
}

/// Encodes the held directions as the bytes of `""`, `"U"`, `"D"` or `"UD"`.
pub fn encode_command(held: ControlCommand) -> (bytes: Vec<u8>)
    ensures
        bytes@ == spec_encode_command(held),
{
    let mut out: Vec<u8> = Vec::new();
    if held.up {
        out.push(UP_TOKEN);
    }
    if held.down {
        out.push(DOWN_TOKEN);
    }
    assert(out@ =~= spec_encode_command(held));
    out
}

} // verus!
