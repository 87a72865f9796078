//! Status codes of the runtime, the errors made from them, and what a call
//! that returned a given status is worth.

use vstd::prelude::*;
use vstd::std_specs::cmp::PartialEqSpec;
use vstd::string::*;

pub mod device;
pub mod occupancy;

verus! {

/// The raw code of the status that the runtime returns from a call that succeeded.
#[allow(non_upper_case_globals)]
pub const cudaSuccess: u32 = 0;

/// A status code as the runtime returns it from every call.
///
/// The code is kept as the integer that came back, so a code that no header
/// names yet is carried like any other and never cut down to one that has a name.
#[allow(non_camel_case_types)]
#[derive(Clone, Copy, Debug, PartialEq, Eq, Hash, Structural)]
pub struct cudaError_t(pub u32);

/// The status of a call that did not succeed, kept as that call's error.
#[derive(Clone, Copy, Eq)]
pub struct CudartError(pub cudaError_t);

/// What a checked call hands back.
pub type CudartResult<T> = Result<T, CudartError>;

impl cudaError_t {
    /// Whether this is the status of a call that succeeded.
    pub open spec fn is_success(self) -> bool {
        self.0 == cudaSuccess
    }

    /// What a call is worth that returned this status and left `value` in the
    /// storage lent to it: `value` on success, and otherwise the error that
    /// carries the status, with `value` dropped.
    pub open spec fn outcome<T>(self, value: T) -> Result<T, CudartError> {
        if self.is_success() {
            Ok(value)
        } else {
            Err(CudartError(self))
        }
    }

    /// Nothing for the success status, and for any other the error that carries it.
    pub fn result(self) -> (out: Result<(), CudartError>)
        ensures
            self.is_success() ==> out == Ok::<(), CudartError>(()),
            !self.is_success() ==> out == Err::<(), CudartError>(CudartError(self)),
    {
        if self.0 == cudaSuccess {
            Ok(())
        } else {
            Err(CudartError(self))
        }
    }
}

impl PartialEq for CudartError {
    /// Two errors are equal when they carry the same status code.
    fn eq(&self, other: &Self) -> (equal: bool) {
        self.0.0 == other.0.0
    }
}

impl vstd::std_specs::cmp::PartialEqSpecImpl for CudartError {
    open spec fn obeys_eq_spec() -> bool {
        true
    }

    open spec fn eq_spec(&self, other: &Self) -> bool {
        self.0.0 == other.0.0
    }
}

/// The value that a call left behind is handed on exactly when the call
/// returned the success status, and otherwise the error carries the status
/// that the call did return.
pub proof fn outcome_goes_by_status<T>(status: cudaError_t, value: T)
    ensures
        status.is_success() <==> status.outcome(value) is Ok,
        status.is_success() ==> status.outcome(value) == Ok::<T, CudartError>(value),
        !status.is_success() ==> status.outcome(value) == Err::<T, CudartError>(
            CudartError(status),
        ),
{
}

/// Equality of errors is reflexive, and it tells apart any two errors whose
/// status codes differ.
pub proof fn error_equality_goes_by_code(a: CudartError, b: CudartError)
    ensures
        a.eq_spec(&a),
        a.0.0 != b.0.0 ==> !a.eq_spec(&b),
        a.eq_spec(&b) <==> a == b,
{
}

/// The character that stands for the hexadecimal digit `d`, in lower case.
pub open spec fn hex_digit(d: u8) -> char
    recommends
        d < 16,
{
    if d < 10 {
        ((0x30 + d) as u8) as char
    } else {
        ((0x57 + d) as u8) as char
    }
}

/// The characters that stand for one byte of a description in the text of an
/// error: a backslash and a letter or the sign itself for tab, carriage
/// return, line feed, both quotes and the backslash; the character itself for
/// every other byte from the space to the tilde; and `\x` with two
/// hexadecimal digits for the rest.
pub open spec fn escaped_byte(b: u8) -> Seq<char> {
    if b == 0x09 {
        seq!['\\', 't']
    } else if b == 0x0d {
        seq!['\\', 'r']
    } else if b == 0x0a {
        seq!['\\', 'n']
    } else if b == 0x27 {
        seq!['\\', '\'']
    } else if b == 0x22 {
        seq!['\\', '"']
    } else if b == 0x5c {
        seq!['\\', '\\']
    } else if 0x20 <= b <= 0x7e {
        seq![b as char]
    } else {
        seq!['\\', 'x', hex_digit(b / 16), hex_digit(b % 16)]
    }
}

/// The characters that stand for the bytes of a description, byte by byte.
pub open spec fn escaped(bytes: Seq<u8>) -> Seq<char>
    decreases bytes.len(),
{
    if bytes.len() == 0 {
        Seq::empty()
    } else {
        escaped(bytes.drop_last()) + escaped_byte(bytes.last())
    }
}

/// The text that shows an error: the name of the type, then in round brackets
/// the text of the status and the description, the description between double
/// quotes and escaped.
pub open spec fn spec_text(status_text: Seq<char>, error_string: Seq<u8>) -> Seq<char> {
    "CudartError("@ + status_text + ", \""@ + escaped(error_string) + "\")"@
}

/// Appends one character to a text with `String::push` of std. Believed of
/// that function and not proved: the text afterwards is the text before with
/// `c` at its end.
#[verifier::external_body]
fn push_char(text: &mut String, c: char)
    ensures
        final(text)@ == old(text)@.push(c),
{
    text.push(c)
}

/// The hexadecimal digit `d` as a character.
fn hex_digit_char(d: u8) -> (c: char)
    requires
        d < 16,
    ensures
        c == hex_digit(d),
{
    if d < 10 {
        (0x30 + d) as char
    } else {
        (0x57 + d) as char
    }
}

/// Writes what stands for the byte `b` at the end of `text`.
fn append_escaped_byte(text: &mut String, b: u8)
    ensures
        final(text)@ == old(text)@ + escaped_byte(b),
{
    if b == 0x09 {
        text.append("\\t");
    } else if b == 0x0d {
        text.append("\\r");
    } else if b == 0x0a {
        text.append("\\n");
    } else if b == 0x27 {
        text.append("\\'");
    } else if b == 0x22 {
        text.append("\\\"");
    } else if b == 0x5c {
        text.append("\\\\");
    } else if 0x20 <= b && b <= 0x7e {
        push_char(text, b as char);
    } else {
        text.append("\\x");
        push_char(text, hex_digit_char(b / 16));
        push_char(text, hex_digit_char(b % 16));
    }
    proof {
        reveal_strlit("\\t");
        reveal_strlit("\\r");
        reveal_strlit("\\n");
        reveal_strlit("\\'");
        reveal_strlit("\\\"");
        reveal_strlit("\\\\");
        reveal_strlit("\\x");
        assert(final(text)@ =~= old(text)@ + escaped_byte(b));
    }
}

impl CudartError {
    /// Shows this error as text, given the text of its status and the
    /// description that the runtime has for it, as the bytes of a C string.
    pub fn text(&self, status_text: &str, error_string: &[u8]) -> (text: String)
        ensures
            text@ == spec_text(status_text@, error_string@),
    {
        let mut text = String::from_str("CudartError(");
        text.append(status_text);
        text.append(", \"");
        let ghost head = text@;
        let mut i: usize = 0;
        while i < error_string.len()
            invariant
                i <= error_string@.len(),
                text@ == head + escaped(error_string@.take(i as int)),
            decreases error_string@.len() - i,
        {
            append_escaped_byte(&mut text, error_string[i]);
            proof {
                let next = error_string@.take(i + 1);
                assert(next.drop_last() =~= error_string@.take(i as int));
                assert(next.last() == error_string@[i as int]);
            }
            i += 1;
        }
        assert(error_string@.take(i as int) =~= error_string@);
        text.append("\")");
        text
    }
}

/// Prepares the runtime for use. The runtime does so by itself on the first
/// call made to it, so there is nothing to do here.
pub fn init() {
}

} // verus!
