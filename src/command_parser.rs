//! The light command grammar.
//!
//! A command text is read as the first of these forms that matches it whole:
//!
//! 1. `on`
//! 2. `off`
//! 3. `B:H:S` with 0-3, 0-5 and 0-3 digits: brightness, hue, saturation
//! 4. `{0-4 digits}MK:{0-5 digits}`: mired colour temperature and brightness
//! 5. `{4 digits}K:{0-5 digits}`: Kelvin colour temperature and brightness
//! 6. `RRGGBB`: an sRGB colour in hexadecimal
//! 7. `0.x,0.y[:brightness]`: chromaticity coordinates and an optional brightness
//!
//! A numeric group that does not fit its field is left unset. A zero colour temperature is
//! left unset, and so is a Kelvin temperature whose mired value does not fit 16 bits. Both
//! temperature forms set the saturation to 254.
use vstd::prelude::*;
use crate::color::{hsv_scaled, rgb_to_hsv};
use crate::command::{CommandLight, CommandLightColor, CommandLightColorTemperature,
    CommandLightDimming, CommandLightDynamics, On, XY};
use crate::error::HueError;
use crate::text::{all_digits, char_is_digit, chars_of, decimal_value, digit_run, is_digit,
    lemma_decimal_value_step, lemma_pow10_bound, pow10, scan_digits, small_decimal};

verus! {

/// End of the run of digits that starts at `start`.
pub open spec fn run_end(c: Seq<char>, start: int) -> int {
    start + digit_run(c, start)
}

/// A group of digits read as a `u8`; `None` when it is empty or too large.
pub open spec fn parse_u8_digits(t: Seq<char>) -> Option<u8> {
    if t.len() > 0 && decimal_value(t) <= 255 {
        Some(decimal_value(t) as u8)
    } else {
        None
    }
}

/// A group of digits read as a `u16`; `None` when it is empty or too large.
pub open spec fn parse_u16_digits(t: Seq<char>) -> Option<u16> {
    if t.len() > 0 && decimal_value(t) <= 65535 {
        Some(decimal_value(t) as u16)
    } else {
        None
    }
}

/// A brightness group of at most five digits; `None` when it is empty.
pub open spec fn brightness_of(t: Seq<char>) -> Option<CommandLightDimming> {
    if t.len() > 0 {
        Some(CommandLightDimming { brightness: decimal_value(t) as u32 })
    } else {
        None
    }
}

pub open spec fn dimming_of_u8(b: Option<u8>) -> Option<CommandLightDimming> {
    match b {
        Some(v) => Some(CommandLightDimming { brightness: v as u32 }),
        None => None,
    }
}

/// A mired temperature of at most four digits; unset when empty or zero.
pub open spec fn mirek_of(t: Seq<char>) -> Option<CommandLightColorTemperature> {
    if t.len() > 0 && decimal_value(t) > 0 {
        Some(CommandLightColorTemperature { mirek: decimal_value(t) as u16 })
    } else {
        None
    }
}

/// A Kelvin temperature converted to mired by integer division; unset when zero (nothing is
/// divided) or when the quotient does not fit a `u16` (below 16 Kelvin).
pub open spec fn kelvin_mirek_of(t: Seq<char>) -> Option<CommandLightColorTemperature> {
    if decimal_value(t) > 0 && 1_000_000nat / decimal_value(t) <= 65535 {
        Some(CommandLightColorTemperature { mirek: (1_000_000nat / decimal_value(t)) as u16 })
    } else {
        None
    }
}

pub open spec fn is_on_text(c: Seq<char>) -> bool {
    c == seq!['o', 'n']
}

pub open spec fn is_off_text(c: Seq<char>) -> bool {
    c == seq!['o', 'f', 'f']
}

pub open spec fn is_triplet(c: Seq<char>) -> bool {
    let a = run_end(c, 0);
    let e = run_end(c, a + 1);
    let f = run_end(c, e + 1);
    &&& a <= 3 && a < c.len() && c[a] == ':'
    &&& e - a - 1 <= 5 && e < c.len() && c[e] == ':'
    &&& f - e - 1 <= 3 && f == c.len()
}

pub open spec fn triplet_command(c: Seq<char>) -> CommandLight {
    let a = run_end(c, 0);
    let e = run_end(c, a + 1);
    CommandLight {
        on: Some(On { on: true }),
        dimming: dimming_of_u8(parse_u8_digits(c.subrange(0, a))),
        hue: parse_u16_digits(c.subrange(a + 1, e)),
        sat: parse_u8_digits(c.subrange(e + 1, c.len() as int)),
        ..CommandLight::empty()
    }
}

pub open spec fn is_mired(c: Seq<char>) -> bool {
    let a = run_end(c, 0);
    let e = run_end(c, a + 3);
    &&& a <= 4 && a + 3 <= c.len()
    &&& c[a] == 'M' && c[a + 1] == 'K' && c[a + 2] == ':'
    &&& e - a - 3 <= 5 && e == c.len()
}

pub open spec fn mired_command(c: Seq<char>) -> CommandLight {
    let a = run_end(c, 0);
    CommandLight {
        on: Some(On { on: true }),
        color_temperature: mirek_of(c.subrange(0, a)),
        dimming: brightness_of(c.subrange(a + 3, c.len() as int)),
        sat: Some(254u8),
        ..CommandLight::empty()
    }
}

pub open spec fn is_kelvin(c: Seq<char>) -> bool {
    let e = run_end(c, 6);
    &&& run_end(c, 0) == 4 && 6 <= c.len()
    &&& c[4] == 'K' && c[5] == ':'
    &&& e - 6 <= 5 && e == c.len()
}

pub open spec fn kelvin_command(c: Seq<char>) -> CommandLight {
    CommandLight {
        on: Some(On { on: true }),
        color_temperature: kelvin_mirek_of(c.subrange(0, 4)),
        dimming: brightness_of(c.subrange(6, c.len() as int)),
        sat: Some(254u8),
        ..CommandLight::empty()
    }
}

pub open spec fn is_hex_digit(ch: char) -> bool {
    ('0' <= ch && ch <= '9') || ('a' <= ch && ch <= 'f') || ('A' <= ch && ch <= 'F')
}

pub open spec fn hex_value(ch: char) -> int {
    if '0' <= ch && ch <= '9' {
        ch as int - '0' as int
    } else if 'a' <= ch && ch <= 'f' {
        ch as int - 'a' as int + 10
    } else {
        ch as int - 'A' as int + 10
    }
}

pub open spec fn hex_byte(c: Seq<char>, i: int) -> int {
    hex_value(c[i]) * 16 + hex_value(c[i + 1])
}

pub open spec fn is_rrggbb(c: Seq<char>) -> bool {
    c.len() == 6 && forall|i: int| 0 <= i < 6 ==> #[trigger] is_hex_digit(c[i])
}

pub open spec fn rrggbb_command(c: Seq<char>) -> CommandLight {
    let hsv = hsv_scaled(hex_byte(c, 0), hex_byte(c, 2), hex_byte(c, 4));
    CommandLight {
        on: Some(On { on: true }),
        hue: Some(hsv.0 as u16),
        sat: Some(hsv.1 as u8),
        dimming: Some(CommandLightDimming { brightness: hsv.2 as u32 }),
        ..CommandLight::empty()
    }
}

/// The decimal fraction `0.t`, in millionths: digits past the sixth are dropped.
pub open spec fn millionths(t: Seq<char>) -> nat {
    if t.len() >= 6 {
        decimal_value(t.subrange(0, 6))
    } else {
        decimal_value(t) * pow10((6 - t.len()) as nat)
    }
}

pub open spec fn is_xy(c: Seq<char>) -> bool {
    let p = run_end(c, 2);
    let q = run_end(c, p + 3);
    &&& 2 <= c.len() && c[0] == '0' && c[1] == '.'
    &&& p > 2 && p + 3 <= c.len()
    &&& c[p] == ',' && c[p + 1] == '0' && c[p + 2] == '.'
    &&& q > p + 3
    &&& (q == c.len() || (c[q] == ':' && run_end(c, q + 1) == c.len() && c.len() - q - 1 <= 5))
}

pub open spec fn xy_command(c: Seq<char>) -> CommandLight {
    let p = run_end(c, 2);
    let q = run_end(c, p + 3);
    CommandLight {
        on: Some(On { on: true }),
        color: Some(
            CommandLightColor {
                xy: XY {
                    x: millionths(c.subrange(2, p)) as u32,
                    y: millionths(c.subrange(p + 3, q)) as u32,
                },
            },
        ),
        dimming: if q < c.len() {
            brightness_of(c.subrange(q + 1, c.len() as int))
        } else {
            None
        },
        ..CommandLight::empty()
    }
}

/// The command that a text stands for, by the first form that matches it whole.
pub open spec fn command_of(c: Seq<char>) -> Option<CommandLight> {
    if is_on_text(c) {
        Some(CommandLight { on: Some(On { on: true }), ..CommandLight::empty() })
    } else if is_off_text(c) {
        Some(CommandLight { on: Some(On { on: false }), ..CommandLight::empty() })
    } else if is_triplet(c) {
        Some(triplet_command(c))
    } else if is_mired(c) {
        Some(mired_command(c))
    } else if is_kelvin(c) {
        Some(kelvin_command(c))
    } else if is_rrggbb(c) {
        Some(rrggbb_command(c))
    } else if is_xy(c) {
        Some(xy_command(c))
    } else {
        None
    }
}

/// An unsigned decimal as `u32::from_str` reads it: an optional `+`, then at least one
/// digit and nothing else, with a value that fits.
pub open spec fn parse_u32_text(s: Seq<char>) -> Option<u32> {
    let body = if s.len() > 0 && s[0] == '+' {
        s.drop_first()
    } else {
        s
    };
    if body.len() > 0 && all_digits(body) && decimal_value(body) <= u32::MAX {
        Some(decimal_value(body) as u32)
    } else {
        None
    }
}

/// What a full argument list stands for: the command in the fourth argument, with the
/// transition time of a fifth argument, when there are exactly five and it is a number.
pub open spec fn command_of_args(args: Seq<Seq<char>>) -> Option<CommandLight> {
    if args.len() < 4 {
        None
    } else {
        match command_of(args[3]) {
            None => None,
            Some(cmd) => if args.len() == 5 && parse_u32_text(args[4]) is Some {
                Some(
                    CommandLight {
                        dynamics: Some(
                            CommandLightDynamics { duration: Some(parse_u32_text(args[4])->0) },
                        ),
                        ..cmd
                    },
                )
            } else {
                Some(cmd)
            },
        }
    }
}

fn parse_u8_at(c: &Vec<char>, start: usize, end: usize) -> (r: Option<u8>)
    requires
        start <= end <= c@.len(),
        end - start <= 5,
        all_digits(c@.subrange(start as int, end as int)),
    ensures
        r == parse_u8_digits(c@.subrange(start as int, end as int)),
{
    if start == end {
        return None;
    }
    let v = small_decimal(c, start, end);
    if v <= 255 {
        Some(v as u8)
    } else {
        None
    }
}

fn parse_u16_at(c: &Vec<char>, start: usize, end: usize) -> (r: Option<u16>)
    requires
        start <= end <= c@.len(),
        end - start <= 5,
        all_digits(c@.subrange(start as int, end as int)),
    ensures
        r == parse_u16_digits(c@.subrange(start as int, end as int)),
{
    if start == end {
        return None;
    }
    let v = small_decimal(c, start, end);
    if v <= 65535 {
        Some(v as u16)
    } else {
        None
    }
}

fn brightness_at(c: &Vec<char>, start: usize, end: usize) -> (r: Option<u32>)
    requires
        start <= end <= c@.len(),
        end - start <= 5,
        all_digits(c@.subrange(start as int, end as int)),
    ensures
        r matches Some(v) ==> brightness_of(c@.subrange(start as int, end as int)) == Some(
            CommandLightDimming { brightness: v },
        ),
        r is None ==> brightness_of(c@.subrange(start as int, end as int)) is None,
{
    if start == end {
        return None;
    }
    Some(small_decimal(c, start, end))
}

fn match_triplet(c: &Vec<char>) -> (r: Option<CommandLight>)
    ensures
        r == (if is_triplet(c@) {
            Some(triplet_command(c@))
        } else {
            None
        }),
{
    let a = scan_digits(c, 0);
    if a > 3 || a >= c.len() || c[a] != ':' {
        return None;
    }
    let e = scan_digits(c, a + 1);
    if e - a - 1 > 5 || e >= c.len() || c[e] != ':' {
        return None;
    }
    let f = scan_digits(c, e + 1);
    if f - e - 1 > 3 || f != c.len() {
        return None;
    }
    let bri = parse_u8_at(c, 0, a);
    let hue = parse_u16_at(c, a + 1, e);
    let sat = parse_u8_at(c, e + 1, f);
    let cmd = CommandLight {
        on: Some(On { on: true }),
        dimming: match bri {
            Some(b) => Some(CommandLightDimming { brightness: b as u32 }),
            None => None,
        },
        hue,
        sat,
        ..CommandLight::new()
    };
    Some(cmd)
}

fn match_mired(c: &Vec<char>) -> (r: Option<CommandLight>)
    ensures
        r == (if is_mired(c@) {
            Some(mired_command(c@))
        } else {
            None
        }),
{
    let a = scan_digits(c, 0);
    if a > 4 || a + 3 > c.len() || c[a] != 'M' || c[a + 1] != 'K' || c[a + 2] != ':' {
        return None;
    }
    let e = scan_digits(c, a + 3);
    if e - a - 3 > 5 || e != c.len() {
        return None;
    }
    let mut cmd = CommandLight::new().on().with_sat(254);
    if a > 0 {
        let m = small_decimal(c, 0, a);
        proof {
            lemma_pow10_bound(a as nat);
            reveal_with_fuel(pow10, 5);
        }
        if m > 0 {
            cmd = cmd.with_mirek(m as u16);
        }
    }
    if let Some(b) = brightness_at(c, a + 3, e) {
        cmd = cmd.with_brightness(b);
    }
    Some(cmd)
}

fn match_kelvin(c: &Vec<char>) -> (r: Option<CommandLight>)
    ensures
        r == (if is_kelvin(c@) {
            Some(kelvin_command(c@))
        } else {
            None
        }),
{
    let a = scan_digits(c, 0);
    if a != 4 || c.len() < 6 || c[4] != 'K' || c[5] != ':' {
        return None;
    }
    let e = scan_digits(c, 6);
    if e - 6 > 5 || e != c.len() {
        return None;
    }
    let mut cmd = CommandLight::new().on().with_sat(254);
    let k = small_decimal(c, 0, 4);
    if k > 0 {
        let q: u32 = 1_000_000 / k;
        if q <= 65535 {
            cmd = cmd.with_mirek(q as u16);
        }
    }
    if let Some(b) = brightness_at(c, 6, e) {
        cmd = cmd.with_brightness(b);
    }
    Some(cmd)
}

fn char_is_hex(ch: char) -> (r: bool)
    ensures
        r == is_hex_digit(ch),
{
    ('0' <= ch && ch <= '9') || ('a' <= ch && ch <= 'f') || ('A' <= ch && ch <= 'F')
}

fn hex_char_value(ch: char) -> (r: u8)
    requires
        is_hex_digit(ch),
    ensures
        r as int == hex_value(ch),
        r < 16,
{
    if '0' <= ch && ch <= '9' {
        (ch as u32 - '0' as u32) as u8
    } else if 'a' <= ch && ch <= 'f' {
        (ch as u32 - 'a' as u32 + 10) as u8
    } else {
        (ch as u32 - 'A' as u32 + 10) as u8
    }
}

fn match_rrggbb(c: &Vec<char>) -> (r: Option<CommandLight>)
    ensures
        r == (if is_rrggbb(c@) {
            Some(rrggbb_command(c@))
        } else {
            None
        }),
{
    if c.len() != 6 {
        return None;
    }
    let mut i: usize = 0;
    while i < 6
        invariant
            c@.len() == 6,
            i <= 6,
            forall|j: int| 0 <= j < i ==> #[trigger] is_hex_digit(c@[j]),
        decreases 6 - i,
    {
        if !char_is_hex(c[i]) {
            return None;
        }
        i = i + 1;
    }
    let r = hex_char_value(c[0]) * 16 + hex_char_value(c[1]);
    let g = hex_char_value(c[2]) * 16 + hex_char_value(c[3]);
    let b = hex_char_value(c[4]) * 16 + hex_char_value(c[5]);
    let (h, s, v) = rgb_to_hsv(r, g, b);
    Some(CommandLight::new().on().with_hue(h).with_sat(s).with_brightness(v as u32))
}

/// The fraction whose decimal digits run from `start` to `end`, in millionths.
fn millionths_at(c: &Vec<char>, start: usize, end: usize) -> (r: u32)
    requires
        start <= end <= c@.len(),
        all_digits(c@.subrange(start as int, end as int)),
    ensures
        r == millionths(c@.subrange(start as int, end as int)),
{
    let ghost t = c@.subrange(start as int, end as int);
    let n: usize = if end - start >= 6 {
        6
    } else {
        end - start
    };
    proof {
        assert(c@.subrange(start as int, start + n) =~= t.subrange(0, n as int));
        assert(all_digits(t.subrange(0, n as int))) by {
            assert forall|i: int| 0 <= i < n implies #[trigger] is_digit(
                t.subrange(0, n as int)[i],
            ) by {
                assert(is_digit(t[i]));
            }
        }
        if n < 6 {
            assert(t.subrange(0, n as int) =~= t);
        }
    }
    let mut v = small_decimal(c, start, start + n);
    let mut k: usize = n;
    while k < 6
        invariant
            n <= k <= 6,
            n == (if t.len() >= 6 {
                6
            } else {
                t.len()
            }),
            v == decimal_value(t.subrange(0, n as int)) * pow10((k - n) as nat),
            v < pow10(k as nat),
        decreases 6 - k,
    {
        proof {
            lemma_pow10_bound((k + 1) as nat);
            assert(pow10((k + 1 - n) as nat) == 10 * pow10((k - n) as nat));
            assert(decimal_value(t.subrange(0, n as int)) * (10 * pow10((k - n) as nat)) == 10 * (
            decimal_value(t.subrange(0, n as int)) * pow10((k - n) as nat))) by (nonlinear_arith);
        }
        v = v * 10;
        k = k + 1;
    }
    proof {
        if n < 6 {
            assert(t.subrange(0, n as int) =~= t);
        } else {
            reveal_with_fuel(pow10, 1);
        }
    }
    v
}

fn match_xy(c: &Vec<char>) -> (r: Option<CommandLight>)
    ensures
        r == (if is_xy(c@) {
            Some(xy_command(c@))
        } else {
            None
        }),
{
    if c.len() < 2 || c[0] != '0' || c[1] != '.' {
        return None;
    }
    let p = scan_digits(c, 2);
    if p <= 2 || c.len() - p < 3 || c[p] != ',' || c[p + 1] != '0' || c[p + 2] != '.' {
        return None;
    }
    let q = scan_digits(c, p + 3);
    if q <= p + 3 {
        return None;
    }
    let mut bri: Option<u32> = None;
    if q < c.len() {
        if c[q] != ':' {
            return None;
        }
        let e = scan_digits(c, q + 1);
        if e != c.len() || c.len() - q - 1 > 5 {
            return None;
        }
        bri = brightness_at(c, q + 1, e);
    }
    let x = millionths_at(c, 2, p);
    let y = millionths_at(c, p + 3, q);
    let mut cmd = CommandLight::new().on().with_xy(x, y);
    if let Some(b) = bri {
        cmd = cmd.with_brightness(b);
    }
    Some(cmd)
}

/// Reads one command text by the grammar of this module.
pub fn parse_light_command(command: &str) -> (r: Result<CommandLight, HueError>)
    ensures
        match command_of(command@) {
            Some(cmd) => r == Ok::<CommandLight, HueError>(cmd),
            None => r matches Err(HueError::CommandError { msg }) && msg@
                == "can not understand command "@ + command@,
        },
{
    let c = chars_of(command);
    if c.len() == 2 && c[0] == 'o' && c[1] == 'n' {
        proof {
            assert(c@ =~= seq!['o', 'n']);
        }
        return Ok(CommandLight::new().on());
    }
    if c.len() == 3 && c[0] == 'o' && c[1] == 'f' && c[2] == 'f' {
        proof {
            assert(c@ =~= seq!['o', 'f', 'f']);
        }
        return Ok(CommandLight::new().off());
    }
    if let Some(cmd) = match_triplet(&c) {
        return Ok(cmd);
    }
    if let Some(cmd) = match_mired(&c) {
        return Ok(cmd);
    }
    if let Some(cmd) = match_kelvin(&c) {
        return Ok(cmd);
    }
    if let Some(cmd) = match_rrggbb(&c) {
        return Ok(cmd);
    }
    if let Some(cmd) = match_xy(&c) {
        return Ok(cmd);
    }
    let mut msg = String::from_str("can not understand command ");
    msg.append(command);
    Err(HueError::CommandError { msg })
}

/// Reads an unsigned decimal as `u32::from_str` does.
pub fn parse_u32(s: &str) -> (r: Option<u32>)
    ensures
        r == parse_u32_text(s@),
{
    let c = chars_of(s);
    let start: usize = if c.len() > 0 && c[0] == '+' {
        1
    } else {
        0
    };
    let ghost body = c@.subrange(start as int, c@.len() as int);
    proof {
        if start == 1 {
            assert(body =~= s@.drop_first());
        } else {
            assert(body =~= s@);
        }
    }
    if start == c.len() {
        return None;
    }
    let cap: u64 = 0x1_0000_0000;
    let mut v: u64 = 0;
    let mut j: usize = start;
    while j < c.len()
        invariant
            start <= j <= c@.len(),
            body == c@.subrange(start as int, c@.len() as int),
            c@ == s@,
            body == (if s@.len() > 0 && s@[0] == '+' {
                s@.drop_first()
            } else {
                s@
            }),
            all_digits(body.subrange(0, j - start)),
            cap == 0x1_0000_0000,
            v == (if decimal_value(body.subrange(0, j - start)) < cap {
                decimal_value(body.subrange(0, j - start))
            } else {
                cap as nat
            }),
        decreases c@.len() - j,
    {
        if !char_is_digit(c[j]) {
            proof {
                assert(body[j - start] == c@[j as int]);
                assert(!is_digit(body[j - start]));
                assert(!all_digits(body));
            }
            return None;
        }
        proof {
            lemma_decimal_value_step(body, j - start);
            assert(all_digits(body.subrange(0, j + 1 - start))) by {
                assert forall|i: int| 0 <= i < j + 1 - start implies #[trigger] is_digit(
                    body.subrange(0, j + 1 - start)[i],
                ) by {
                    if i < j - start {
                        assert(body.subrange(0, j + 1 - start)[i] == body.subrange(
                            0,
                            j - start,
                        )[i]);
                    }
                }
            }
        }
        let d = (c[j] as u64) - ('0' as u64);
        v = v * 10 + d;
        if v > cap {
            v = cap;
        }
        j = j + 1;
    }
    proof {
        assert(body.subrange(0, c@.len() - start) =~= body);
    }
    if v > 0xffff_ffff {
        None
    } else {
        Some(v as u32)
    }
}

/// Reads a full argument list: the command text is the fourth argument, and a fifth
/// argument, when it is the last one and a number, is the transition time.
pub fn parse_command(args: Vec<String>) -> (r: Result<CommandLight, HueError>)
    ensures
        match command_of_args(args@.map_values(|a: String| a@)) {
            Some(cmd) => r == Ok::<CommandLight, HueError>(cmd),
            None => r matches Err(HueError::CommandError { .. }),
        },
{
    let ghost texts = args@.map_values(|a: String| a@);
    if args.len() < 4 {
        return Err(HueError::CommandError { msg: String::from_str("missing command") });
    }
    let parsed = parse_light_command(args[3].as_str());
    assert(texts[3] == args@[3]@);
    match parsed {
        Err(e) => Err(e),
        Ok(cmd) => {
            if args.len() == 5 {
                assert(texts[4] == args@[4]@);
                if let Some(ms) = parse_u32(args[4].as_str()) {
                    return Ok(cmd.with_transition_time(ms));
                }
            }
            Ok(cmd)
        },
    }
}

/// Precedence of the grammar: a text in the `B:H:S` form is always read as brightness, hue
/// and saturation, whatever its digits might look like otherwise; and a text holding a
/// colon is never read as a hexadecimal colour.
pub proof fn lemma_triplet_precedence(c: Seq<char>)
    ensures
        is_triplet(c) ==> command_of(c) == Some(triplet_command(c)),
        (exists|i: int| 0 <= i < c.len() && c[i] == ':') ==> !is_rrggbb(c),
{
    if is_triplet(c) {
        assert(!is_on_text(c)) by {
            if is_on_text(c) {
                assert(c[0] == 'o');
                assert(digit_run(c, 0) == 0);
            }
        }
        assert(!is_off_text(c)) by {
            if is_off_text(c) {
                assert(c[0] == 'o');
                assert(digit_run(c, 0) == 0);
            }
        }
    }
    if exists|i: int| 0 <= i < c.len() && c[i] == ':' {
        let i = choose|i: int| 0 <= i < c.len() && c[i] == ':';
        assert(!is_hex_digit(c[i]));
    }
}

/// A zero colour temperature leaves the temperature unset (nothing is divided by zero),
/// while both temperature forms still set the saturation; a Kelvin temperature of at
/// least 16 is converted to mired by plain integer division, and one below 16, whose mired
/// value would not fit, leaves the temperature unset.
pub proof fn lemma_temperature_forms(c: Seq<char>)
    ensures
        is_mired(c) && decimal_value(c.subrange(0, run_end(c, 0))) == 0 ==> (command_of(c) matches Some(
            cmd,
        ) && cmd.color_temperature is None && cmd.sat == Some(254u8)),
        is_kelvin(c) && decimal_value(c.subrange(0, 4)) == 0 ==> (command_of(c) matches Some(cmd)
            && cmd.color_temperature is None && cmd.sat == Some(254u8)),
        is_kelvin(c) && decimal_value(c.subrange(0, 4)) >= 16 ==> (command_of(c) matches Some(cmd)
            && cmd.color_temperature == Some(
            CommandLightColorTemperature {
                mirek: (1_000_000nat / decimal_value(c.subrange(0, 4))) as u16,
            },
        ) && cmd.sat == Some(254u8)),
        is_kelvin(c) && decimal_value(c.subrange(0, 4)) < 16 ==> (command_of(c) matches Some(cmd)
            && cmd.color_temperature is None),
{
    lemma_not_word(c);
    if is_mired(c) {
        let a = run_end(c, 0);
        assert(!is_triplet(c)) by {
            assert(c[a] == 'M');
        }
    }
    if is_kelvin(c) {
        assert(digit_run(c, 0) == 4);
        assert(!is_triplet(c)) by {
            assert(c[4] == 'K');
        }
        assert(!is_mired(c)) by {
            assert(c[4] == 'K');
        }
        let k = decimal_value(c.subrange(0, 4));
        if k >= 16 {
            assert(1_000_000nat / k < 65536) by (nonlinear_arith)
                requires
                    k >= 16,
            ;
        } else if k > 0 {
            assert(1_000_000nat / k > 65535) by (nonlinear_arith)
                requires
                    0 < k < 16,
            ;
        }
    }
}

/// Neither `on` nor `off` starts with a digit.
proof fn lemma_not_word(c: Seq<char>)
    ensures
        (is_on_text(c) || is_off_text(c)) ==> digit_run(c, 0) == 0 && c[0] == 'o',
{
    if is_on_text(c) || is_off_text(c) {
        assert(c[0] == 'o');
        assert(!is_digit(c[0]));
    }
}

} // verus!
