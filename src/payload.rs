//! The JSON payload of a light command. Every present field becomes one member, in the
//! order of the fields; an absent field is left out entirely (never written as `null`).
//! Colour coordinates are written as decimals with six places.
use vstd::prelude::*;
use crate::command::{CommandLight, CommandLightColor, CommandLightColorTemperature,
    CommandLightDimming, CommandLightDynamics, On};

verus! {

pub open spec fn digit_char(d: nat) -> char {
    if d == 0 {
        '0'
    } else if d == 1 {
        '1'
    } else if d == 2 {
        '2'
    } else if d == 3 {
        '3'
    } else if d == 4 {
        '4'
    } else if d == 5 {
        '5'
    } else if d == 6 {
        '6'
    } else if d == 7 {
        '7'
    } else if d == 8 {
        '8'
    } else {
        '9'
    }
}

/// The decimal digits of `n`.
pub open spec fn decimal_text(n: nat) -> Seq<char>
    decreases n,
{
    if n < 10 {
        seq![digit_char(n)]
    } else {
        decimal_text(n / 10).push(digit_char(n % 10))
    }
}

/// A number of millionths written as a decimal with six places.
pub open spec fn fraction_text(m: nat) -> Seq<char> {
    let r = m % 1_000_000;
    decimal_text(m / 1_000_000) + seq![
        '.',
        digit_char((r / 100_000) % 10),
        digit_char((r / 10_000) % 10),
        digit_char((r / 1000) % 10),
        digit_char((r / 100) % 10),
        digit_char((r / 10) % 10),
        digit_char(r % 10),
    ]
}

pub open spec fn bool_text(b: bool) -> Seq<char> {
    if b {
        "true"@
    } else {
        "false"@
    }
}

pub open spec fn on_text(o: On) -> Seq<char> {
    "\"on\":{\"on\":"@ + bool_text(o.on) + "}"@
}

pub open spec fn dimming_text(d: CommandLightDimming) -> Seq<char> {
    "\"dimming\":{\"brightness\":"@ + decimal_text(d.brightness as nat) + "}"@
}

pub open spec fn temperature_text(t: CommandLightColorTemperature) -> Seq<char> {
    "\"color_temperature\":{\"mirek\":"@ + decimal_text(t.mirek as nat) + "}"@
}

pub open spec fn color_text(c: CommandLightColor) -> Seq<char> {
    "\"color\":{\"xy\":{\"x\":"@ + fraction_text(c.xy.x as nat) + ",\"y\":"@ + fraction_text(
        c.xy.y as nat,
    ) + "}}"@
}

pub open spec fn dynamics_text(d: CommandLightDynamics) -> Seq<char> {
    "\"dynamics\":{"@ + match d.duration {
        Some(ms) => "\"duration\":"@ + decimal_text(ms as nat),
        None => seq![],
    } + "}"@
}

pub open spec fn hue_text(h: u16) -> Seq<char> {
    "\"hue\":"@ + decimal_text(h as nat)
}

pub open spec fn sat_text(s: u8) -> Seq<char> {
    "\"sat\":"@ + decimal_text(s as nat)
}

pub open spec fn member_of<T>(field: Option<T>, text: spec_fn(T) -> Seq<char>) -> Seq<Seq<char>> {
    match field {
        Some(v) => seq![text(v)],
        None => seq![],
    }
}

/// The members of the payload, one for each present field, in order.
pub open spec fn members(cmd: CommandLight) -> Seq<Seq<char>> {
    member_of(cmd.on, |o| on_text(o)) + member_of(cmd.dimming, |d| dimming_text(d)) + member_of(
        cmd.color_temperature,
        |t| temperature_text(t),
    ) + member_of(cmd.color, |c| color_text(c)) + member_of(cmd.dynamics, |d| dynamics_text(d))
        + member_of(cmd.hue, |h| hue_text(h)) + member_of(cmd.sat, |s| sat_text(s))
}

/// The parts joined by commas.
pub open spec fn join(parts: Seq<Seq<char>>) -> Seq<char>
    decreases parts.len(),
{
    if parts.len() == 0 {
        seq![]
    } else if parts.len() == 1 {
        parts[0]
    } else {
        join(parts.drop_last()) + ","@ + parts.last()
    }
}

/// The JSON payload of a command.
pub open spec fn command_json(cmd: CommandLight) -> Seq<char> {
    "{"@ + join(members(cmd)) + "}"@
}

fn digit_str(d: u64) -> (r: &'static str)
    requires
        d < 10,
    ensures
        r@ == seq![digit_char(d as nat)],
{
    proof {
        reveal_strlit("0");
        reveal_strlit("1");
        reveal_strlit("2");
        reveal_strlit("3");
        reveal_strlit("4");
        reveal_strlit("5");
        reveal_strlit("6");
        reveal_strlit("7");
        reveal_strlit("8");
        reveal_strlit("9");
    }
    if d == 0 {
        "0"
    } else if d == 1 {
        "1"
    } else if d == 2 {
        "2"
    } else if d == 3 {
        "3"
    } else if d == 4 {
        "4"
    } else if d == 5 {
        "5"
    } else if d == 6 {
        "6"
    } else if d == 7 {
        "7"
    } else if d == 8 {
        "8"
    } else {
        "9"
    }
}

fn push_decimal(out: &mut String, n: u64)
    ensures
        final(out)@ == old(out)@ + decimal_text(n as nat),
    decreases n,
{
    if n >= 10 {
        push_decimal(out, n / 10);
    }
    out.append(digit_str(n % 10));
}

fn push_fraction(out: &mut String, m: u32)
    ensures
        final(out)@ == old(out)@ + fraction_text(m as nat),
{
    let r: u64 = (m as u64) % 1_000_000;
    push_decimal(out, (m as u64) / 1_000_000);
    out.append(".");
    out.append(digit_str((r / 100_000) % 10));
    out.append(digit_str((r / 10_000) % 10));
    out.append(digit_str((r / 1000) % 10));
    out.append(digit_str((r / 100) % 10));
    out.append(digit_str((r / 10) % 10));
    out.append(digit_str(r % 10));
    proof {
        reveal_strlit(".");
        assert(final(out)@ =~= old(out)@ + fraction_text(m as nat));
    }
}

/// Adds a member to a payload being written, after a comma unless it is the first.
fn add_member(out: &mut String, parts: Ghost<Seq<Seq<char>>>, first: bool, member: &String)
    requires
        old(out)@ == "{"@ + join(parts@),
        first == (parts@.len() == 0),
    ensures
        final(out)@ == "{"@ + join(parts@.push(member@)),
{
    proof {
        assert(parts@.push(member@).drop_last() =~= parts@);
    }
    if !first {
        out.append(",");
    }
    out.append(member.as_str());
    proof {
        if parts@.len() == 0 {
            assert(parts@.push(member@) =~= seq![member@]);
        }
        assert(final(out)@ =~= "{"@ + join(parts@.push(member@)));
    }
}

fn write_on(o: On) -> (r: String)
    ensures
        r@ == on_text(o),
{
    let mut m = String::from_str("\"on\":{\"on\":");
    if o.on {
        m.append("true");
    } else {
        m.append("false");
    }
    m.append("}");
    m
}

fn write_dimming(d: CommandLightDimming) -> (r: String)
    ensures
        r@ == dimming_text(d),
{
    let mut m = String::from_str("\"dimming\":{\"brightness\":");
    push_decimal(&mut m, d.brightness as u64);
    m.append("}");
    m
}

fn write_temperature(t: CommandLightColorTemperature) -> (r: String)
    ensures
        r@ == temperature_text(t),
{
    let mut m = String::from_str("\"color_temperature\":{\"mirek\":");
    push_decimal(&mut m, t.mirek as u64);
    m.append("}");
    m
}

fn write_color(c: CommandLightColor) -> (r: String)
    ensures
        r@ == color_text(c),
{
    let mut m = String::from_str("\"color\":{\"xy\":{\"x\":");
    push_fraction(&mut m, c.xy.x);
    m.append(",\"y\":");
    push_fraction(&mut m, c.xy.y);
    m.append("}}");
    m
}

fn write_dynamics(d: CommandLightDynamics) -> (r: String)
    ensures
        r@ == dynamics_text(d),
{
    let mut m = String::from_str("\"dynamics\":{");
    if let Some(ms) = d.duration {
        m.append("\"duration\":");
        push_decimal(&mut m, ms as u64);
    }
    m.append("}");
    proof {
        if d.duration is None {
            assert(m@ =~= dynamics_text(d));
        }
    }
    m
}

fn write_hue(h: u16) -> (r: String)
    ensures
        r@ == hue_text(h),
{
    let mut m = String::from_str("\"hue\":");
    push_decimal(&mut m, h as u64);
    m
}

fn write_sat(s: u8) -> (r: String)
    ensures
        r@ == sat_text(s),
{
    let mut m = String::from_str("\"sat\":");
    push_decimal(&mut m, s as u64);
    m
}

impl CommandLight {
    /// The JSON payload that sends this command to the bridge.
    pub fn to_json(&self) -> (r: String)
        ensures
            r@ == command_json(*self),
    {
        let mut out = String::from_str("{");
        let ghost mut parts: Seq<Seq<char>> = seq![];
        proof {
            assert(join(parts) =~= Seq::<char>::empty());
            assert(out@ =~= "{"@ + join(parts));
        }
        let mut first = true;
        if let Some(o) = self.on {
            let m = write_on(o);
            add_member(&mut out, Ghost(parts), first, &m);
            first = false;
            proof {
                parts = parts.push(m@);
            }
        }
        proof {
            assert(parts =~= member_of(self.on, |o| on_text(o)));
        }
        let ghost after_on = parts;
        if let Some(d) = self.dimming {
            let m = write_dimming(d);
            add_member(&mut out, Ghost(parts), first, &m);
            first = false;
            proof {
                parts = parts.push(m@);
            }
        }
        proof {
            assert(parts =~= after_on + member_of(self.dimming, |d| dimming_text(d)));
        }
        let ghost after_dimming = parts;
        if let Some(t) = self.color_temperature {
            let m = write_temperature(t);
            add_member(&mut out, Ghost(parts), first, &m);
            first = false;
            proof {
                parts = parts.push(m@);
            }
        }
        proof {
            assert(parts =~= after_dimming + member_of(self.color_temperature, |t| temperature_text(t)));
        }
        let ghost after_temperature = parts;
        if let Some(c) = self.color {
            let m = write_color(c);
            add_member(&mut out, Ghost(parts), first, &m);
            first = false;
            proof {
                parts = parts.push(m@);
            }
        }
        proof {
            assert(parts =~= after_temperature + member_of(self.color, |c| color_text(c)));
        }
        let ghost after_color = parts;
        if let Some(d) = self.dynamics {
            let m = write_dynamics(d);
            add_member(&mut out, Ghost(parts), first, &m);
            first = false;
            proof {
                parts = parts.push(m@);
            }
        }
        proof {
            assert(parts =~= after_color + member_of(self.dynamics, |d| dynamics_text(d)));
        }
        let ghost after_dynamics = parts;
        if let Some(h) = self.hue {
            let m = write_hue(h);
            add_member(&mut out, Ghost(parts), first, &m);
            first = false;
            proof {
                parts = parts.push(m@);
            }
        }
        proof {
            assert(parts =~= after_dynamics + member_of(self.hue, |h| hue_text(h)));
        }
        let ghost after_hue = parts;
        if let Some(s) = self.sat {
            let m = write_sat(s);
            add_member(&mut out, Ghost(parts), first, &m);
            proof {
                parts = parts.push(m@);
            }
        }
        proof {
            assert(parts =~= after_hue + member_of(self.sat, |s| sat_text(s)));
            assert(parts =~= members(*self));
        }
        out.append("}");
        out
    }
}

/// How many fields of the command are present.
pub open spec fn present_fields(cmd: CommandLight) -> nat {
    (if cmd.on is Some { 1nat } else { 0nat }) + (if cmd.dimming is Some { 1nat } else { 0nat }) + (
    if cmd.color_temperature is Some {
        1nat
    } else {
        0nat
    }) + (if cmd.color is Some { 1nat } else { 0nat }) + (if cmd.dynamics is Some {
        1nat
    } else {
        0nat
    }) + (if cmd.hue is Some { 1nat } else { 0nat }) + (if cmd.sat is Some { 1nat } else { 0nat })
}

/// Absent fields are left out: the payload has exactly one member for each present field,
/// and none at all (`{}`) for the command that changes nothing.
pub proof fn lemma_payload_members(cmd: CommandLight)
    ensures
        members(cmd).len() == present_fields(cmd),
        present_fields(cmd) == 0 ==> command_json(cmd) == "{"@ + "}"@,
{
    if present_fields(cmd) == 0 {
        assert(members(cmd) =~= Seq::<Seq<char>>::empty());
    }
}

} // verus!
