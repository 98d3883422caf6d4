//! The two text lines printed for each function the scan finds.
//!
//! The first line reads `0xBB  0xSS  0xFF  0xVVVV  0xDDDD  <device name>`,
//! the second `0xCC  0xSS  0xPP  0xRR            <class name>`; numbers are
//! zero-padded lower-case hexadecimal.
use vstd::prelude::*;
use crate::names::{describe_class, describe_device, spec_describe_class, spec_describe_device};
use crate::scan::PciFunctionRecord;

verus! {

/// Lower-case hexadecimal digit of `d`.
pub open spec fn hex_digit(d: nat) -> char {
    if d < 10 {
        (d + 48) as char
    } else {
        (d + 87) as char
    }
}

/// The `width` lowest hexadecimal digits of `v`, most significant first.
pub open spec fn hex_digits(v: nat, width: nat) -> Seq<char>
    decreases width,
{
    if width == 0 {
        Seq::empty()
    } else {
        hex_digits(v / 16, (width - 1) as nat).push(hex_digit(v % 16))
    }
}

/// `0x` followed by `width` digits.
pub open spec fn hex_field(v: nat, width: nat) -> Seq<char> {
    seq!['0', 'x'] + hex_digits(v, width)
}

/// The two spaces between columns.
pub open spec fn gap() -> Seq<char> {
    seq![' ', ' ']
}

/// The spaces that take the second line from its last number to the class name.
pub open spec fn wide_gap() -> Seq<char> {
    Seq::new(12, |i: int| ' ')
}

pub open spec fn device_line(r: PciFunctionRecord) -> Seq<char> {
    hex_field(r.bus as nat, 2) + gap() + hex_field(r.slot as nat, 2) + gap() + hex_field(
        r.function as nat,
        2,
    ) + gap() + hex_field(r.vendor as nat, 4) + gap() + hex_field(r.device as nat, 4) + gap()
        + spec_describe_device(r.vendor, r.device)@
}

pub open spec fn class_line(r: PciFunctionRecord) -> Seq<char> {
    hex_field(r.class as nat, 2) + gap() + hex_field(r.subclass as nat, 2) + gap() + hex_field(
        r.prog_if as nat,
        2,
    ) + gap() + hex_field(r.revision as nat, 2) + wide_gap() + spec_describe_class(
        r.class,
        r.subclass,
        r.prog_if,
    )@
}

fn hex_digit_char(d: u8) -> (c: char)
    requires
        d < 16,
    ensures
        c == hex_digit(d as nat),
{
    if d < 10 {
        (d + 48) as char
    } else {
        (d + 87) as char
    }
}

fn push_hex_byte(out: &mut Vec<char>, v: u8)
    ensures
        final(out)@ == old(out)@ + hex_field(v as nat, 2),
{
    out.push('0');
    out.push('x');
    out.push(hex_digit_char(v / 16));
    out.push(hex_digit_char(v % 16));
    reveal_with_fuel(hex_digits, 3);
    let ghost n = v as nat;
    assert(n / 16 / 16 == 0 && n / 16 % 16 == n / 16) by (nonlinear_arith)
        requires
            n < 256,
    ;
    assert(hex_digits(n, 2) =~= seq![hex_digit(n / 16), hex_digit(n % 16)]);
    assert(final(out)@ =~= old(out)@ + hex_field(v as nat, 2));
}

fn push_hex_word(out: &mut Vec<char>, v: u16)
    ensures
        final(out)@ == old(out)@ + hex_field(v as nat, 4),
{
    out.push('0');
    out.push('x');
    out.push(hex_digit_char((v / 4096) as u8));
    out.push(hex_digit_char((v / 256 % 16) as u8));
    out.push(hex_digit_char((v / 16 % 16) as u8));
    out.push(hex_digit_char((v % 16) as u8));
    let ghost n = v as nat;
    reveal_with_fuel(hex_digits, 5);
    assert(n / 16 / 16 == n / 256 && n / 256 / 16 == n / 4096 && n / 4096 < 16 && n / 4096 / 16
        == 0 && n / 4096 % 16 == n / 4096) by (nonlinear_arith)
        requires
            n < 65536,
    ;
    assert(hex_digits(n, 4) =~= seq![
        hex_digit(n / 4096),
        hex_digit(n / 256 % 16),
        hex_digit(n / 16 % 16),
        hex_digit(n % 16),
    ]);
    assert(final(out)@ =~= old(out)@ + hex_field(n, 4));
}

fn push_str(out: &mut Vec<char>, s: &str)
    ensures
        final(out)@ == old(out)@ + s@,
{
    let ghost start = out@;
    let n = s.unicode_len();
    let mut i: usize = 0;
    while i < n
        invariant
            i <= n,
            n == s@.len(),
            out@ == start + s@.subrange(0, i as int),
        decreases n - i,
    {
        out.push(s.get_char(i));
        i = i + 1;
        assert(out@ =~= start + s@.subrange(0, i as int));
    }
    assert(s@.subrange(0, n as int) =~= s@);
}

fn push_gap(out: &mut Vec<char>, n: usize)
    ensures
        final(out)@ == old(out)@ + Seq::new(n as nat, |i: int| ' '),
{
    let ghost start = out@;
    let mut i: usize = 0;
    while i < n
        invariant
            i <= n,
            out@ == start + Seq::new(i as nat, |k: int| ' '),
        decreases n - i,
    {
        out.push(' ');
        i = i + 1;
        assert(out@ =~= start + Seq::new(i as nat, |k: int| ' '));
    }
}

impl PciFunctionRecord {
    /// The line with bus, slot, function, vendor, device and device name.
    pub fn device_line(&self) -> (r: Vec<char>)
        ensures
            r@ == device_line(*self),
    {
        let mut out: Vec<char> = Vec::new();
        push_hex_byte(&mut out, self.bus);
        push_gap(&mut out, 2);
        push_hex_byte(&mut out, self.slot);
        push_gap(&mut out, 2);
        push_hex_byte(&mut out, self.function);
        push_gap(&mut out, 2);
        push_hex_word(&mut out, self.vendor);
        push_gap(&mut out, 2);
        push_hex_word(&mut out, self.device);
        push_gap(&mut out, 2);
        push_str(&mut out, describe_device(self.vendor, self.device));
        assert(Seq::new(2, |i: int| ' ') =~= gap());
        assert(out@ =~= device_line(*self));
        out
    }

    /// The line with class, subclass, programming interface, revision and
    /// class name.
    pub fn class_line(&self) -> (r: Vec<char>)
        ensures
            r@ == class_line(*self),
    {
        let mut out: Vec<char> = Vec::new();
        push_hex_byte(&mut out, self.class);
        push_gap(&mut out, 2);
        push_hex_byte(&mut out, self.subclass);
        push_gap(&mut out, 2);
        push_hex_byte(&mut out, self.prog_if);
        push_gap(&mut out, 2);
        push_hex_byte(&mut out, self.revision);
        push_gap(&mut out, 12);
        push_str(&mut out, describe_class(self.class, self.subclass, self.prog_if));
        assert(Seq::new(2, |i: int| ' ') =~= gap());
        assert(out@ =~= class_line(*self));
        out
    }
}

} // verus!
