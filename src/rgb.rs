use vstd::prelude::*;
use crate::numbers::{decimal, push_decimal};
use crate::text::push_char;

verus! {

/// A 24-bit color: three 8-bit channels.
#[derive(Clone, Copy, Debug, PartialEq, Eq, Structural)]
pub struct RGB {
    pub r: u8,
    pub g: u8,
    pub b: u8,
}

impl RGB {
    /// The neutral gray used when a base color cannot be resolved.
    pub fn gray() -> (c: RGB)
        ensures
            c == (RGB { r: 128, g: 128, b: 128 }),
    {
        RGB { r: 128, g: 128, b: 128 }
    }

    /// The ANSI escape sequence that sets the 24-bit foreground color to `self`.
    pub fn to_ansi(&self) -> (s: String)
        ensures
            s@ == ansi_of(*self),
    {
        let mut s = String::new();
        push_char(&mut s, '\x1b');
        push_char(&mut s, '[');
        push_char(&mut s, '3');
        push_char(&mut s, '8');
        push_char(&mut s, ';');
        push_char(&mut s, '2');
        push_char(&mut s, ';');
        push_decimal(&mut s, self.r as u64);
        push_char(&mut s, ';');
        push_decimal(&mut s, self.g as u64);
        push_char(&mut s, ';');
        push_decimal(&mut s, self.b as u64);
        push_char(&mut s, 'm');
        assert(s@ =~= ansi_of(*self));
        s
    }
}

/// `ESC [ 38 ; 2 ; r ; g ; b m`: set the foreground to the 24-bit color `c`.
pub open spec fn ansi_of(c: RGB) -> Seq<char> {
    seq!['\x1b', '[', '3', '8', ';', '2', ';'] + decimal(c.r as nat) + seq![';'] + decimal(
        c.g as nat,
    ) + seq![';'] + decimal(c.b as nat) + seq!['m']
}

/// The escape sequence that sets the 24-bit foreground color to `(r, g, b)`.
pub fn ansi_rgb(r: u8, g: u8, b: u8) -> (s: String)
    ensures
        s@ == ansi_of(RGB { r, g, b }),
{
    RGB { r, g, b }.to_ansi()
}

/// `ESC [ 0 m`: reset every attribute.
pub open spec fn reset_seq() -> Seq<char> {
    seq!['\x1b', '[', '0', 'm']
}

/// Appends the full attribute reset.
pub(crate) fn push_reset(out: &mut String)
    ensures
        final(out)@ == old(out)@ + reset_seq(),
{
    push_char(out, '\x1b');
    push_char(out, '[');
    push_char(out, '0');
    push_char(out, 'm');
    assert(out@ =~= old(out)@ + reset_seq());
}

} // verus!
