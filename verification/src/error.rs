//! Public error type.
use vstd::prelude::*;
use vstd::string::*;

verus! {

/// The standard I/O error, carried opaquely.
#[verifier::external_type_specification]
#[verifier::external_body]
pub struct ExIoError(std::io::Error);

/// Errors surfaced to consumers.
#[derive(Debug)]
#[non_exhaustive]
pub enum Error {
    /// No Wayland display could be reached.
    NotWayland(String),
    /// The compositor doesn't advertise a global that is needed.
    MissingGlobal {
        /// Interface name of the missing global.
        name: &'static str,
    },
    /// I/O failure on the Wayland socket.
    Io(std::io::Error),
    /// A Wayland protocol error reported by the server.
    Protocol {
        /// Interface name of the offending object.
        interface: &'static str,
        /// Server-defined error code.
        code: u32,
        /// Server-supplied message.
        message: String,
    },
    /// The keymap the compositor sent could not be parsed.
    Keymap(String),
    /// The operation does not apply to this surface kind.
    InvalidOperation(&'static str),
}

impl From<std::io::Error> for Error {
    fn from(err: std::io::Error) -> (r: Error)
        ensures
            r == Error::Io(err),
    {
        Error::Io(err)
    }
}

impl vstd::std_specs::convert::FromSpecImpl<std::io::Error> for Error {
    open spec fn obeys_from_spec() -> bool {
        true
    }

    open spec fn from_spec(v: std::io::Error) -> Error {
        Error::Io(v)
    }
}

/// The character of decimal digit `d`.
pub open spec fn spec_digit(d: int) -> char {
    (48 + d) as char
}

/// Decimal representation of `n`, most significant digit first.
pub open spec fn spec_decimal(n: nat) -> Seq<char>
    decreases n,
{
    if n < 10 {
        seq![spec_digit(n as int)]
    } else {
        spec_decimal(n / 10) + seq![spec_digit((n % 10) as int)]
    }
}

/// The one-character string of digit `d`.
fn digit_str(d: u32) -> (s: &'static str)
    requires
        d < 10,
    ensures
        s@ == seq![spec_digit(d as int)],
{
    proof {
        reveal_strlit("0");
        reveal_strlit("1");
        reveal_strlit("2");
        reveal_strlit("3");
        reveal_strlit("4");
        reveal_strlit("5");
        reveal_strlit("6");
        reveal_strlit("7");
        reveal_strlit("8");
        reveal_strlit("9");
    }
    let s = match d {
        0 => "0",
        1 => "1",
        2 => "2",
        3 => "3",
        4 => "4",
        5 => "5",
        6 => "6",
        7 => "7",
        8 => "8",
        _ => "9",
    };
    assert(s@ =~= seq![spec_digit(d as int)]);
    s
}

/// Append the decimal representation of `n` to `out`.
fn push_decimal(out: &mut String, n: u32)
    ensures
        final(out)@ == old(out)@ + spec_decimal(n as nat),
    decreases n,
{
    if n >= 10 {
        push_decimal(out, n / 10);
    }
    out.append(digit_str(n % 10));
    assert(final(out)@ =~= old(out)@ + spec_decimal(n as nat));
}

/// The human-readable description of an error, as its `Display` output.
pub open spec fn spec_error_message(e: Error, text: Seq<char>) -> bool {
    match e {
        Error::NotWayland(msg) => text == "not a wayland session: "@ + msg@,
        Error::MissingGlobal { name } => text == "compositor does not advertise the "@ + name@ + " global"@,
        Error::Io(_) => text.len() >= "wayland socket I/O: "@.len()
            && text.subrange(0, "wayland socket I/O: "@.len() as int) == "wayland socket I/O: "@,
        Error::Protocol { interface, code, message } => text == "wayland protocol error on "@ + interface@
            + " (code "@ + spec_decimal(code as nat) + "): "@ + message@,
        Error::Keymap(msg) => text == "xkbcommon keymap: "@ + msg@,
        Error::InvalidOperation(op) => text == "invalid operation: "@ + op@,
    }
}

impl Error {
    /// The underlying I/O error: present exactly for [`Error::Io`], and
    /// then the very error it holds.
    pub fn source(&self) -> (r: Option<&std::io::Error>)
        ensures
            (self is Io) <==> (r is Some),
            *self matches Error::Io(e) ==> (r matches Some(x) && *x == e),
    {
        match self {
            Error::Io(e) => Some(e),
            _ => None,
        }
    }

    /// Human-readable description (what `Display` prints). For an I/O
    /// error the text after the prefix is the I/O error's own
    /// description, which comes from the operating system and is not
    /// stated here.
    pub fn message(&self) -> (s: String)
        ensures
            spec_error_message(*self, s@),
    {
        let mut s = String::new();
        match self {
            Error::NotWayland(msg) => {
                s.append("not a wayland session: ");
                s.append(msg.as_str());
            },
            Error::MissingGlobal { name } => {
                s.append("compositor does not advertise the ");
                s.append(name);
                s.append(" global");
            },
            Error::Io(err) => {
                s.append("wayland socket I/O: ");
                let ghost prefix = s@;
                let t = err.to_string();
                s.append(t.as_str());
                assert(s@.subrange(0, prefix.len() as int) =~= prefix);
            },
            Error::Protocol { interface, code, message } => {
                s.append("wayland protocol error on ");
                s.append(interface);
                s.append(" (code ");
                push_decimal(&mut s, *code);
                s.append("): ");
                s.append(message.as_str());
            },
            Error::Keymap(msg) => {
                s.append("xkbcommon keymap: ");
                s.append(msg.as_str());
            },
            Error::InvalidOperation(op) => {
                s.append("invalid operation: ");
                s.append(op);
            },
        }
        s
    }
}

/// Why an activation request could not be made.
#[derive(Debug, Clone, Copy, PartialEq, Eq, Structural)]
pub enum ActivationError {
    /// The compositor doesn't advertise `xdg_activation_v1`.
    Unsupported,
    /// No pointer / keyboard / touch input has been seen yet, so there is
    /// no serial to attach.
    NoInputSerial,
}

/// Whether a token request may be sent: it needs a recent input serial
/// (checked first) and the activation global. Returns the serial to
/// attach.
pub fn activation_serial(last_input_serial: u32, has_activation: bool) -> (r: Result<u32, ActivationError>)
    ensures
        last_input_serial == 0 ==> r == Err::<u32, ActivationError>(ActivationError::NoInputSerial),
        last_input_serial != 0 && !has_activation ==> r == Err::<u32, ActivationError>(ActivationError::Unsupported),
        last_input_serial != 0 && has_activation ==> r == Ok::<u32, ActivationError>(last_input_serial),
{
    if last_input_serial == 0 {
        return Err(ActivationError::NoInputSerial);
    }
    if !has_activation {
        return Err(ActivationError::Unsupported);
    }
    Ok(last_input_serial)
}

} // verus!
