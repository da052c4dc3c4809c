//! The effect packets of a DualSense: 47 bytes, laid out as the USB output report without its
//! leading report id.

use vstd::prelude::*;
use crate::settings::opt_chars;
use crate::text::{parse_uint, parsed, trim, trimmed, unsigned_part};

verus! {

/// Length of an effects packet.
pub const PACKET_LEN: usize = 47;

/// Builder of effect packets.
pub struct Ds5Feedback;

/// The packet that holds `value(i)` at each offset.
pub open spec fn packet(value: spec_fn(int) -> u8) -> Seq<u8> {
    Seq::new(PACKET_LEN as nat, value)
}

/// How much of an effect fits its block.
pub open spec fn effect_len(effect: Seq<u8>) -> int {
    if effect.len() < Ds5Feedback::TRIGGER_LEN {
        effect.len() as int
    } else {
        Ds5Feedback::TRIGGER_LEN as int
    }
}

/// Offset of a trigger's block.
pub open spec fn trigger_offset(which: u8) -> int {
    if which == 1 {
        Ds5Feedback::RIGHT_TRIGGER as int
    } else {
        Ds5Feedback::LEFT_TRIGGER as int
    }
}

/// A trigger's effect, cut to its block; the enable bit is set even for an empty effect.
pub open spec fn trigger_bytes(which: u8, effect: Seq<u8>) -> Seq<u8> {
    let off = trigger_offset(which);
    packet(
        |i: int|
            if i == 0 {
                if which == 1 {
                    0x04
                } else {
                    0x08
                }
            } else if off <= i < off + effect_len(effect) {
                effect[i - off]
            } else {
                0
            },
    )
}

/// The light bar's colour.
pub open spec fn lightbar_bytes(r: u8, g: u8, b: u8) -> Seq<u8> {
    packet(
        |i: int|
            if i == 1 {
                0x04
            } else if i == Ds5Feedback::LED_RGB {
                r
            } else if i == Ds5Feedback::LED_RGB + 1 {
                g
            } else if i == Ds5Feedback::LED_RGB + 2 {
                b
            } else {
                0
            },
    )
}

/// The player lights.
pub open spec fn player_bytes(bits: u8) -> Seq<u8> {
    packet(
        |i: int|
            if i == 1 {
                0x10
            } else if i == Ds5Feedback::PAD_LIGHTS {
                bits & 0x1F
            } else {
                0
            },
    )
}

/// The light of the microphone button.
pub open spec fn mic_led_bytes(mode: u8) -> Seq<u8> {
    packet(
        |i: int|
            if i == 1 {
                0x01
            } else if i == Ds5Feedback::MIC_LED {
                mode
            } else {
                0
            },
    )
}

/// Speaker volume and output path.
pub open spec fn speaker_bytes(volume: u8, path: u8) -> Seq<u8> {
    packet(
        |i: int|
            if i == 0 {
                0xA0
            } else if i == Ds5Feedback::AUDIO + 1 {
                volume
            } else if i == Ds5Feedback::AUDIO + 3 {
                path
            } else {
                0
            },
    )
}

/// The audio block as the host set it; flag bits 1 to 4 become enable bits 4 to 7.
pub open spec fn audio_ctl_bytes(flags: u8, raw: Seq<u8>) -> Seq<u8> {
    packet(
        |i: int|
            if i == 0 {
                (flags & 0x1E) << 3
            } else if Ds5Feedback::AUDIO <= i < Ds5Feedback::AUDIO + 6 {
                raw[i - Ds5Feedback::AUDIO]
            } else {
                0
            },
    )
}

impl Ds5Feedback {
    /// Start of the audio block.
    pub const AUDIO: usize = 4;

    /// Start of the right trigger's block.
    pub const RIGHT_TRIGGER: usize = 10;

    /// Start of the left trigger's block.
    pub const LEFT_TRIGGER: usize = 21;

    /// The player lights.
    pub const PAD_LIGHTS: usize = 43;

    /// The light of the microphone button.
    pub const MIC_LED: usize = 8;

    /// The light bar's red byte, followed by green and blue.
    pub const LED_RGB: usize = 44;

    /// A mode byte and ten parameters.
    pub const TRIGGER_LEN: usize = 11;

    /// A trigger's effect: `which` 1 is the right one. What is longer than the block is cut,
    /// and an empty effect releases the trigger.
    pub fn trigger_packet(which: u8, effect: &[u8]) -> (p: [u8; 47])
        ensures
            p@ == trigger_bytes(which, effect@),
            which == 1 ==> p@[0] == 0x04,
            which != 1 ==> p@[0] == 0x08,
            forall|i: int|
                0 < i < 47 ==> #[trigger] p@[i] == (if which == 1 && 10 <= i < 21 && i - 10
                    < effect@.len() {
                    effect@[i - 10]
                } else if which != 1 && 21 <= i < 32 && i - 21 < effect@.len() {
                    effect@[i - 21]
                } else {
                    0u8
                }),
    {
        let mut p: [u8; 47] = [0u8; 47];
        let off: usize = if which == 1 {
            Self::RIGHT_TRIGGER
        } else {
            Self::LEFT_TRIGGER
        };
        p[0] = if which == 1 {
            0x04
        } else {
            0x08
        };
        let n: usize = if effect.len() < Self::TRIGGER_LEN {
            effect.len()
        } else {
            Self::TRIGGER_LEN
        };
        let mut i: usize = 0;
        while i < n
            invariant
                i <= n,
                n == effect_len(effect@),
                off == trigger_offset(which),
                p@.len() == 47,
                forall|k: int|
                    0 <= k < 47 ==> #[trigger] p@[k] == (if off <= k < off + i {
                        effect@[k - off]
                    } else if k == 0 {
                        if which == 1 {
                            0x04u8
                        } else {
                            0x08u8
                        }
                    } else {
                        0u8
                    }),
            decreases n - i,
        {
            p[off + i] = effect[i];
            i = i + 1;
        }
        assert(p@ =~= trigger_bytes(which, effect@));
        p
    }

    /// The light bar's colour.
    pub fn lightbar_packet(r: u8, g: u8, b: u8) -> (p: [u8; 47])
        ensures
            p@ == lightbar_bytes(r, g, b),
            p@[1] == 0x04 && p@[44] == r && p@[45] == g && p@[46] == b,
            forall|i: int| 0 <= i < 44 && i != 1 ==> #[trigger] p@[i] == 0,
    {
        let mut p: [u8; 47] = [0u8; 47];
        p[1] = 0x04;
        p[Self::LED_RGB] = r;
        p[Self::LED_RGB + 1] = g;
        p[Self::LED_RGB + 2] = b;
        assert(p@ =~= lightbar_bytes(r, g, b));
        p
    }

    /// The player lights; bits above the fifth are not ours to set.
    pub fn player_packet(bits: u8) -> (p: [u8; 47])
        ensures
            p@ == player_bytes(bits),
            p@[1] == 0x10 && p@[43] == bits & 0x1F,
            forall|i: int| 0 <= i < 47 && i != 1 && i != 43 ==> #[trigger] p@[i] == 0,
    {
        let mut p: [u8; 47] = [0u8; 47];
        p[1] = 0x10;
        p[Self::PAD_LIGHTS] = bits & 0x1F;
        assert(p@ =~= player_bytes(bits));
        p
    }

    /// The light of the microphone button.
    pub fn mic_led_packet(mode: u8) -> (p: [u8; 47])
        ensures
            p@ == mic_led_bytes(mode),
            p@[1] == 0x01 && p@[8] == mode,
            forall|i: int| 0 <= i < 47 && i != 1 && i != 8 ==> #[trigger] p@[i] == 0,
    {
        let mut p: [u8; 47] = [0u8; 47];
        p[1] = 0x01;
        p[Self::MIC_LED] = mode;
        assert(p@ =~= mic_led_bytes(mode));
        p
    }

    /// Enables nothing: the two bits that mute the voice coils go clear.
    pub fn audio_haptics_packet() -> (p: [u8; 47])
        ensures
            p@ == packet(|i: int| 0u8),
            forall|i: int| 0 <= i < 47 ==> #[trigger] p@[i] == 0,
    {
        let p: [u8; 47] = [0u8; 47];
        assert(p@ =~= packet(|i: int| 0u8));
        p
    }

    /// Point the shared channel at the pad's own speaker.
    pub fn speaker_enable_packet(volume: u8, path: u8) -> (p: [u8; 47])
        ensures
            p@ == speaker_bytes(volume, path),
            p@[0] == 0xA0 && p@[5] == volume && p@[7] == path,
            forall|i: int| 0 < i < 47 && i != 5 && i != 7 ==> #[trigger] p@[i] == 0,
    {
        let mut p: [u8; 47] = [0u8; 47];
        p[0] = 0xA0;
        p[Self::AUDIO + 1] = volume;
        p[Self::AUDIO + 3] = path;
        assert(p@ =~= speaker_bytes(volume, path));
        p
    }

    /// Replay the host's audio settings. Flag bit 0 is not replayed, so haptics stay live.
    pub fn audio_ctl_packet(flags: u8, raw: &[u8; 6]) -> (p: [u8; 47])
        ensures
            p@ == audio_ctl_bytes(flags, raw@),
            p@[0] == (flags & 0x1E) << 3,
            forall|i: int| 4 <= i < 10 ==> #[trigger] p@[i] == raw@[i - 4],
            forall|i: int| 0 < i < 4 || 10 <= i < 47 ==> #[trigger] p@[i] == 0,
    {
        let mut p: [u8; 47] = [0u8; 47];
        p[0] = (flags & 0x1E) << 3;
        p[Self::AUDIO] = raw[0];
        p[Self::AUDIO + 1] = raw[1];
        p[Self::AUDIO + 2] = raw[2];
        p[Self::AUDIO + 3] = raw[3];
        p[Self::AUDIO + 4] = raw[4];
        p[Self::AUDIO + 5] = raw[5];
        assert(p@ =~= audio_ctl_bytes(flags, raw@));
        p
    }
}

/// No packet sets either of the bits that mute the voice coils.
pub proof fn no_packet_mutes_the_coils(
    which: u8,
    effect: Seq<u8>,
    r: u8,
    g: u8,
    b: u8,
    bits: u8,
    volume: u8,
    path: u8,
    flags: u8,
    raw: Seq<u8>,
)
    ensures
        trigger_bytes(which, effect)[0] & 0x03 == 0,
        lightbar_bytes(r, g, b)[0] & 0x03 == 0,
        player_bytes(bits)[0] & 0x03 == 0,
        mic_led_bytes(bits)[0] & 0x03 == 0,
        speaker_bytes(volume, path)[0] & 0x03 == 0,
        audio_ctl_bytes(flags, raw)[0] & 0x03 == 0,
{
    assert(((flags & 0x1E) << 3) & 0x03 == 0) by (bit_vector);
    assert(0x04u8 & 0x03 == 0 && 0x08u8 & 0x03 == 0 && 0u8 & 0x03 == 0 && 0xA0u8 & 0x03 == 0)
        by (bit_vector);
}

/// A trigger's effect stays inside its own block: the other trigger, the audio block and the
/// lights are untouched.
pub proof fn an_effect_stays_in_its_block(which: u8, effect: Seq<u8>, i: int)
    requires
        0 < i < 47,
        !(trigger_offset(which) <= i < trigger_offset(which) + Ds5Feedback::TRIGGER_LEN),
    ensures
        trigger_bytes(which, effect)[i] == 0,
{
}

/// How many of the five player lights are lit.
pub open spec fn lit(bits: u8) -> int {
    (if bits & 0x01 != 0 {
        1int
    } else {
        0
    }) + (if bits & 0x02 != 0 {
        1int
    } else {
        0
    }) + (if bits & 0x04 != 0 {
        1int
    } else {
        0
    }) + (if bits & 0x08 != 0 {
        1int
    } else {
        0
    }) + (if bits & 0x10 != 0 {
        1int
    } else {
        0
    })
}

/// Player index of a light pattern: one less than the number of lit lights. No lit light is
/// no player, not player zero.
pub fn player_index_from_bits(bits: u8) -> (r: Option<u16>)
    ensures
        match r {
            Some(i) => i == lit(bits) - 1,
            None => lit(bits) == 0,
        },
        r is None <==> bits & 0x01 == 0 && bits & 0x02 == 0 && bits & 0x04 == 0 && bits & 0x08 == 0
            && bits & 0x10 == 0,
        r is Some ==> r->Some_0 <= 4,
{
    let mut n: u16 = 0;
    if bits & 0x01 != 0 {
        n = n + 1;
    }
    if bits & 0x02 != 0 {
        n = n + 1;
    }
    if bits & 0x04 != 0 {
        n = n + 1;
    }
    if bits & 0x08 != 0 {
        n = n + 1;
    }
    if bits & 0x10 != 0 {
        n = n + 1;
    }
    if n == 0 {
        None
    } else {
        Some(n - 1)
    }
}

/// The value of a hexadecimal digit.
pub open spec fn hex_digit(c: char) -> Option<int> {
    if '0' <= c && c <= '9' {
        Some(c as u32 - '0' as u32)
    } else if 'a' <= c && c <= 'f' {
        Some(c as u32 - 'a' as u32 + 10)
    } else if 'A' <= c && c <= 'F' {
        Some(c as u32 - 'A' as u32 + 10)
    } else {
        None
    }
}

/// The number a run of hexadecimal digits spells.
pub open spec fn hex_value(s: Seq<char>) -> Option<int>
    decreases s.len(),
{
    if s.len() == 0 {
        Some(0)
    } else {
        match (hex_value(s.drop_last()), hex_digit(s.last())) {
            (Some(v), Some(d)) => Some(v * 16 + d),
            _ => None,
        }
    }
}

/// A byte in text: decimal, or hexadecimal after `0x` or `0X`, with white space round it.
pub open spec fn byte_of(s: Seq<char>) -> Option<int> {
    let t = trimmed(s);
    if t.len() >= 2 && t[0] == '0' && (t[1] == 'x' || t[1] == 'X') {
        let h = unsigned_part(t.skip(2));
        match hex_value(h) {
            Some(v) => if h.len() > 0 && v <= 255 {
                Some(v)
            } else {
                None
            },
            None => None,
        }
    } else {
        parsed(t, 255)
    }
}

fn hex_char(c: char) -> (r: Option<u32>)
    ensures
        match r {
            Some(d) => hex_digit(c) == Some(d as int) && d < 16,
            None => hex_digit(c) is None,
        },
{
    let n: u32 = c as u32;
    if '0' <= c && c <= '9' {
        Some(n - '0' as u32)
    } else if 'a' <= c && c <= 'f' {
        Some(n - 'a' as u32 + 10)
    } else if 'A' <= c && c <= 'F' {
        Some(n - 'A' as u32 + 10)
    } else {
        None
    }
}

proof fn hex_value_grows(s: Seq<char>, k: int)
    requires
        0 <= k <= s.len(),
    ensures
        hex_value(s) is Some ==> hex_value(s.take(k)) is Some && hex_value(s.take(k))->Some_0
            <= hex_value(s)->Some_0 && 0 <= hex_value(s.take(k))->Some_0,
    decreases s.len(), s.len() - k,
{
    if k < s.len() {
        hex_value_grows(s, k + 1);
        assert(s.take(k + 1).drop_last() =~= s.take(k));
        if hex_value(s) is Some {
            hex_value_grows(s.drop_last(), k);
            assert(s.drop_last().take(k) =~= s.take(k));
        }
    } else {
        assert(s.take(k) =~= s);
        if s.len() > 0 {
            hex_value_grows(s.drop_last(), k - 1);
            assert(s.drop_last().take(k - 1) =~= s.drop_last());
        }
    }
}

/// Reads a byte an environment variable holds. A typo is no value rather than zero.
pub fn parse_u8(text: &str) -> (r: Option<u8>)
    ensures
        match r {
            Some(v) => byte_of(text@) == Some(v as int),
            None => byte_of(text@) is None,
        },
{
    let t: String = trim(text);
    let s: &str = t.as_str();
    let n: usize = s.unicode_len();
    if n >= 2 && s.get_char(0) == '0' && (s.get_char(1) == 'x' || s.get_char(1) == 'X') {
        let mut i: usize = 2;
        if n > 2 && s.get_char(2) == '+' {
            i = 3;
        }
        let start: usize = i;
        let ghost h = unsigned_part(s@.skip(2));
        assert(h =~= s@.skip(start as int));
        if i == n {
            return None;
        }
        let mut v: u32 = 0;
        while i < n
            invariant
                n == s@.len(),
                start <= i <= n,
                h == s@.skip(start as int),
                v <= 255,
                hex_value(h.take(i - start)) == Some(v as int),
                h.len() == n - start,
                h.len() > 0,
                byte_of(text@) == (match hex_value(h) {
                    Some(v) => if h.len() > 0 && v <= 255 {
                        Some(v)
                    } else {
                        None
                    },
                    None => None,
                }),
            decreases n - i,
        {
            let c: char = s.get_char(i);
            assert(h.take(i + 1 - start).drop_last() =~= h.take(i - start));
            assert(h.take(i + 1 - start).last() == c);
            proof {
                hex_value_grows(h, i + 1 - start);
            }
            match hex_char(c) {
                Some(d) => {
                    v = v * 16 + d;
                },
                None => {
                    return None;
                },
            }
            if v > 255 {
                return None;
            }
            i = i + 1;
        }
        assert(h.take(i - start) =~= h);
        Some(v as u8)
    } else {
        match parse_uint(s, 255) {
            Some(v) => Some(v as u8),
            None => None,
        }
    }
}

/// Where the speaker's sound goes unless the environment says otherwise: the pad's own speaker.
pub const SPEAKER_PATH: u8 = 0x20;

/// How loud the speaker is unless the environment says otherwise.
pub const SPEAKER_VOLUME: u8 = 0x7F;

/// A byte the environment holds, or the usual one.
pub open spec fn env_or(env: Option<Seq<char>>, usual: u8) -> u8 {
    match env {
        Some(text) => match byte_of(text) {
            Some(v) => v as u8,
            None => usual,
        },
        None => usual,
    }
}

fn env_byte(env: Option<&str>, usual: u8) -> (r: u8)
    ensures
        r == env_or(opt_chars(env), usual),
{
    match env {
        Some(text) => match parse_u8(text) {
            Some(v) => v,
            None => usual,
        },
        None => usual,
    }
}

/// What a pad that renders its speaker stream is told when it is opened.
pub fn speaker_setup(path_env: Option<&str>, volume_env: Option<&str>) -> (p: [u8; 47])
    ensures
        p@ == speaker_bytes(
            env_or(opt_chars(volume_env), SPEAKER_VOLUME),
            env_or(opt_chars(path_env), SPEAKER_PATH),
        ),
        p@[0] == 0xA0,
        path_env is None ==> p@[7] == 0x20,
        path_env is Some && byte_of(path_env->Some_0@) is None ==> p@[7] == 0x20,
        path_env is Some && byte_of(path_env->Some_0@) is Some ==> p@[7] == byte_of(
            path_env->Some_0@,
        )->Some_0 as u8,
        volume_env is None ==> p@[5] == 0x7F,
        volume_env is Some && byte_of(volume_env->Some_0@) is None ==> p@[5] == 0x7F,
        volume_env is Some && byte_of(volume_env->Some_0@) is Some ==> p@[5] == byte_of(
            volume_env->Some_0@,
        )->Some_0 as u8,
{
    let path: u8 = env_byte(path_env, SPEAKER_PATH);
    let volume: u8 = env_byte(volume_env, SPEAKER_VOLUME);
    Ds5Feedback::speaker_enable_packet(volume, path)
}

} // verus!
