use vstd::prelude::*;

verus! {

/// Number of key codes that name a key.
pub const KEY_COUNT: u16 = 0x300;

/// The name that the input layer gives the key with this code.
pub uninterp spec fn key_name_of(code: u16) -> Seq<char>;

/// Relies on input_linux::Key::from_code, which yields a key exactly for the
/// codes below the key count (0x300), and on the derived Debug name of Key,
/// which depends on the key alone.
#[verifier::external_body]
fn key_name(code: u16) -> (r: Option<String>)
    ensures
        r is Some <==> code < KEY_COUNT,
        r matches Some(n) ==> n@ == key_name_of(code),
{
    match input_linux::Key::from_code(code) {
        Ok(key) => Some(format!("{key:?}")),
        Err(_) => None,
    }
}

/// The decimal digit `d`, below ten.
pub open spec fn digit_text(d: nat) -> Seq<char> {
    if d == 0 {
        "0"@
    } else if d == 1 {
        "1"@
    } else if d == 2 {
        "2"@
    } else if d == 3 {
        "3"@
    } else if d == 4 {
        "4"@
    } else if d == 5 {
        "5"@
    } else if d == 6 {
        "6"@
    } else if d == 7 {
        "7"@
    } else if d == 8 {
        "8"@
    } else {
        "9"@
    }
}

/// `n` in decimal, without leading zeros.
pub open spec fn decimal_text(n: nat) -> Seq<char>
    decreases n,
{
    if n < 10 {
        digit_text(n)
    } else {
        decimal_text(n / 10) + digit_text(n % 10)
    }
}

fn push_digit(out: &mut String, d: u16)
    requires
        d < 10,
    ensures
        final(out)@ == old(out)@ + digit_text(d as nat),
{
    if d == 0 {
        out.append("0");
    } else if d == 1 {
        out.append("1");
    } else if d == 2 {
        out.append("2");
    } else if d == 3 {
        out.append("3");
    } else if d == 4 {
        out.append("4");
    } else if d == 5 {
        out.append("5");
    } else if d == 6 {
        out.append("6");
    } else if d == 7 {
        out.append("7");
    } else if d == 8 {
        out.append("8");
    } else {
        out.append("9");
    }
}

fn push_decimal(out: &mut String, n: u16)
    ensures
        final(out)@ == old(out)@ + decimal_text(n as nat),
    decreases n,
{
    if n >= 10 {
        push_decimal(out, n / 10);
        push_digit(out, n % 10);
        assert(final(out)@ =~= old(out)@ + decimal_text(n as nat));
    } else {
        push_digit(out, n);
    }
}

/// How a key code is shown to the operator, given the name of its key if
/// it has one.
pub open spec fn key_code_text_with(code: u16, name: Option<Seq<char>>) -> Seq<char> {
    "KeyCode: "@ + decimal_text(code as nat) + match name {
        Some(n) => ", Key: "@ + n,
        None => Seq::empty(),
    }
}

/// How a key code is shown to the operator: the number, and the key's name
/// when the code names one.
pub open spec fn key_code_text(code: u16) -> Seq<char> {
    key_code_text_with(
        code,
        if code < KEY_COUNT {
            Some(key_name_of(code))
        } else {
            None
        },
    )
}

/// Renders a key code with the name of its key, if any.
pub fn render_key_code(code: u16, name: Option<String>) -> (r: String)
    ensures
        r@ == key_code_text_with(
            code,
            match name {
                Some(n) => Some(n@),
                None => None,
            },
        ),
{
    let mut r = String::from_str("KeyCode: ");
    push_decimal(&mut r, code);
    match name {
        Some(n) => {
            r.append(", Key: ");
            r.append(n.as_str());
        },
        None => {},
    }
    assert(r@ =~= key_code_text_with(
        code,
        match name {
            Some(n) => Some(n@),
            None => None,
        },
    ));
    r
}

/// A raw key or button code.
#[derive(Clone, Copy, Debug, PartialEq, Eq, Structural)]
pub struct KeyCode(pub u16);

impl KeyCode {
    /// Renders the code for the operator.
    pub fn describe(&self) -> (r: String)
        ensures
            r@ == key_code_text(self.0),
    {
        render_key_code(self.0, key_name(self.0))
    }
}

} // verus!
