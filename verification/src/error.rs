//! The failure values the engine hands back to its host.

use vstd::prelude::*;

verus! {

/// An engine failure.
///
/// Initialization failures are fatal: construction stops, the error is
/// returned to the caller, and nothing retries.
#[derive(Debug, Clone)]
pub enum EngineError {
    /// A numeric status reported by the graphics backend.
    VulkanError(i32),
    /// A failure described by a message of this library's own.
    Custom(String),
    /// A failure with no further description.
    Unknown,
}

/// The character of one decimal digit.
pub open spec fn digit_char(d: nat) -> char {
    if d == 0 {
        '0'
    } else if d == 1 {
        '1'
    } else if d == 2 {
        '2'
    } else if d == 3 {
        '3'
    } else if d == 4 {
        '4'
    } else if d == 5 {
        '5'
    } else if d == 6 {
        '6'
    } else if d == 7 {
        '7'
    } else if d == 8 {
        '8'
    } else {
        '9'
    }
}

/// The decimal digits of `n`, most significant first, no leading zeros
/// (a single `'0'` for zero).
pub open spec fn dec_digits(n: nat) -> Seq<char>
    decreases n,
{
    if n < 10 {
        seq![digit_char(n)]
    } else {
        dec_digits(n / 10) + seq![digit_char(n % 10)]
    }
}

/// The decimal rendering of `n`, a leading `'-'` when it is negative.
pub open spec fn int_digits(n: int) -> Seq<char> {
    if n < 0 {
        seq!['-'] + dec_digits((-n) as nat)
    } else {
        dec_digits(n as nat)
    }
}

/// The message text of an error, as the host displays it.
pub open spec fn error_message(e: EngineError) -> Seq<char> {
    match e {
        EngineError::VulkanError(code) => "Encountered Vulkan Error: `"@ + int_digits(
            code as int,
        ) + "`"@,
        EngineError::Custom(m) => "Custom error: `"@ + m@ + "`"@,
        EngineError::Unknown => "Unknown error in engine."@,
    }
}

/// The one-character string of one decimal digit.
fn digit_str(d: u32) -> (r: &'static str)
    requires
        d < 10,
    ensures
        r@ == seq![digit_char(d as nat)],
{
    let r: &'static str = if d == 0 {
        "0"
    } else if d == 1 {
        "1"
    } else if d == 2 {
        "2"
    } else if d == 3 {
        "3"
    } else if d == 4 {
        "4"
    } else if d == 5 {
        "5"
    } else if d == 6 {
        "6"
    } else if d == 7 {
        "7"
    } else if d == 8 {
        "8"
    } else {
        "9"
    };
    proof {
        reveal_strlit("0");
        reveal_strlit("1");
        reveal_strlit("2");
        reveal_strlit("3");
        reveal_strlit("4");
        reveal_strlit("5");
        reveal_strlit("6");
        reveal_strlit("7");
        reveal_strlit("8");
        reveal_strlit("9");
        assert(r@ =~= seq![digit_char(d as nat)]);
    }
    r
}

/// Appends the decimal digits of `n`, most significant first.
fn push_dec(out: &mut String, n: u32)
    ensures
        final(out)@ == old(out)@ + dec_digits(n as nat),
    decreases n,
{
    if n >= 10 {
        push_dec(out, n / 10);
    }
    out.append(digit_str(n % 10));
    proof {
        assert(out@ =~= old(out)@ + dec_digits(n as nat));
    }
}

/// Appends the decimal rendering of `n`, a leading `-` when negative.
fn push_int(out: &mut String, n: i32)
    ensures
        final(out)@ == old(out)@ + int_digits(n as int),
{
    if n < 0 {
        out.append("-");
        let magnitude: u32 = (-(n as i64)) as u32;
        push_dec(out, magnitude);
        proof {
            reveal_strlit("-");
            assert(out@ =~= old(out)@ + int_digits(n as int));
        }
    } else {
        push_dec(out, n as u32);
    }
}

impl EngineError {
    /// The message text of this error, character for character what
    /// [`error_message`] gives.
    pub fn message(&self) -> (r: String)
        ensures
            r@ == error_message(*self),
    {
        match self {
            EngineError::VulkanError(code) => {
                let mut s = String::from_str("Encountered Vulkan Error: `");
                push_int(&mut s, *code);
                s.append("`");
                s
            },
            EngineError::Custom(m) => {
                let mut s = String::from_str("Custom error: `");
                s.append(m.as_str());
                s.append("`");
                s
            },
            EngineError::Unknown => String::from_str("Unknown error in engine."),
        }
    }
}

} // verus!
