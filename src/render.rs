use vstd::prelude::*;

verus! {

/// The character for a decimal digit.
pub open spec fn digit_char(d: nat) -> char {
    ((d + 48) as u8) as char
}

/// Decimal text of a natural number, most significant digit first.
pub open spec fn decimal(n: nat) -> Seq<char>
    decreases n,
{
    if n < 10 {
        seq![digit_char(n)]
    } else {
        decimal(n / 10).push(digit_char(n % 10))
    }
}

/// Decimal text of an integer, with a leading minus sign when negative.
pub open spec fn signed_decimal(n: int) -> Seq<char> {
    if n < 0 {
        seq!['-'] + decimal((-n) as nat)
    } else {
        decimal(n as nat)
    }
}

/// Relies on String::push: the character is appended at the end.
#[verifier::external_body]
fn push_char(out: &mut String, c: char)
    ensures
        final(out)@ == old(out)@.push(c),
{
    out.push(c);
}

fn write_decimal(out: &mut String, n: u64)
    ensures
        final(out)@ == old(out)@ + decimal(n as nat),
    decreases n,
{
    if n >= 10 {
        write_decimal(out, n / 10);
    }
    let d: u8 = (n % 10) as u8;
    push_char(out, (d + 48) as char);
    assert(out@ =~= old(out)@ + decimal(n as nat));
}

fn write_signed(out: &mut String, n: i64)
    ensures
        final(out)@ == old(out)@ + signed_decimal(n as int),
{
    if n < 0 {
        push_char(out, '-');
        let m: i128 = n as i128;
        write_decimal(out, (0 - m) as u64);
        assert(out@ =~= old(out)@ + signed_decimal(n as int));
    } else {
        write_decimal(out, n as u64);
    }
}

/// A value with a defined text form, written into a `String` sink.
pub trait Render {
    /// The text this value renders as.
    spec fn text(&self) -> Seq<char>;

    /// Appends the text of this value to `out`.
    fn write_to(&self, out: &mut String)
        ensures
            final(out)@ == old(out)@ + self.text(),
    ;
}

impl Render for u32 {
    open spec fn text(&self) -> Seq<char> {
        decimal(*self as nat)
    }

    fn write_to(&self, out: &mut String) {
        write_decimal(out, *self as u64);
    }
}

impl Render for u64 {
    open spec fn text(&self) -> Seq<char> {
        decimal(*self as nat)
    }

    fn write_to(&self, out: &mut String) {
        write_decimal(out, *self);
    }
}

impl Render for usize {
    open spec fn text(&self) -> Seq<char> {
        decimal(*self as nat)
    }

    fn write_to(&self, out: &mut String) {
        write_decimal(out, *self as u64);
    }
}

impl Render for i32 {
    open spec fn text(&self) -> Seq<char> {
        signed_decimal(*self as int)
    }

    fn write_to(&self, out: &mut String) {
        write_signed(out, *self as i64);
    }
}

impl Render for i64 {
    open spec fn text(&self) -> Seq<char> {
        signed_decimal(*self as int)
    }

    fn write_to(&self, out: &mut String) {
        write_signed(out, *self);
    }
}

impl Render for char {
    open spec fn text(&self) -> Seq<char> {
        seq![*self]
    }

    fn write_to(&self, out: &mut String) {
        push_char(out, *self);
    }
}

impl<'a> Render for &'a str {
    open spec fn text(&self) -> Seq<char> {
        (**self)@
    }

    fn write_to(&self, out: &mut String) {
        out.append(*self);
    }
}

impl Render for String {
    open spec fn text(&self) -> Seq<char> {
        self@
    }

    fn write_to(&self, out: &mut String) {
        out.append(self.as_str());
    }
}

impl<'a, T: Render> Render for &'a T {
    open spec fn text(&self) -> Seq<char> {
        (**self).text()
    }

    fn write_to(&self, out: &mut String) {
        (**self).write_to(out);
    }
}

} // verus!
