//! Where to find the compositor, as the environment tells it.

use crate::path::{is_absolute, join, joined, starts_at_root};
use vstd::prelude::*;
use vstd::string::*;

verus! {

/// How to reach the compositor.
#[derive(Debug)]
pub enum ConnectTarget {
    /// Through the socket that was inherited under this descriptor.
    Inherited(i32),
    /// Through the socket at this path.
    Path(Vec<u8>),
}

/// How to reach the compositor, as plain values.
pub enum Target {
    Inherited(i32),
    Path(Seq<u8>),
}

impl View for ConnectTarget {
    type V = Target;

    open spec fn view(&self) -> Target {
        match self {
            ConnectTarget::Inherited(fd) => Target::Inherited(*fd),
            ConnectTarget::Path(path) => Target::Path(path@),
        }
    }
}

/// Why the environment does not tell where the compositor is.
#[derive(Clone, Copy, Debug, PartialEq, Eq, Structural)]
pub enum ConnectError {
    /// `WAYLAND_SOCKET` does not hold the number of a descriptor.
    InvalidFd,
    /// `WAYLAND_DISPLAY` is not set.
    DisplayNotSet,
    /// `WAYLAND_DISPLAY` is relative and `XDG_RUNTIME_DIR` is not set.
    RuntimeDirNotSet,
    /// `WAYLAND_DISPLAY` is relative and `XDG_RUNTIME_DIR` is too.
    RuntimeDirNotAbsolute,
}

impl ConnectError {
    /// The line shown to the user.
    pub open spec fn spec_message(self) -> Seq<char> {
        match self {
            ConnectError::InvalidFd => "invalid fd in WAYLAND_SOCKET env var"@,
            ConnectError::DisplayNotSet => "failed to detect wayland compositor: WAYLAND_DISPLAY not set"@,
            ConnectError::RuntimeDirNotSet => "failed to detect wayland compositor: XDG_RUNTIME_DIR not set"@,
            ConnectError::RuntimeDirNotAbsolute => "failed to detect wayland compositor: socket_path is not absolute"@,
        }
    }

    /// The line shown to the user.
    pub fn message(&self) -> (line: &'static str)
        ensures
            line@ == self.spec_message(),
    {
        match self {
            ConnectError::InvalidFd => "invalid fd in WAYLAND_SOCKET env var",
            ConnectError::DisplayNotSet => "failed to detect wayland compositor: WAYLAND_DISPLAY not set",
            ConnectError::RuntimeDirNotSet => "failed to detect wayland compositor: XDG_RUNTIME_DIR not set",
            ConnectError::RuntimeDirNotAbsolute => "failed to detect wayland compositor: socket_path is not absolute",
        }
    }
}

/// Whether `byte` is a decimal digit.
pub open spec fn is_digit(byte: u8) -> bool {
    0x30 <= byte <= 0x39
}

/// The number that a run of decimal digits stands for.
pub open spec fn digits_value(digits: Seq<u8>) -> int
    decreases digits.len(),
{
    if digits.len() == 0 {
        0
    } else {
        digits_value(digits.drop_last()) * 10 + (digits.last() - 0x30)
    }
}

/// Whether `bytes` are decimal digits throughout.
pub open spec fn all_digits(bytes: Seq<u8>) -> bool {
    forall|i: int| 0 <= i < bytes.len() ==> is_digit(#[trigger] bytes[i])
}

/// The descriptor that `text` names: an optional sign and then one or more decimal
/// digits, nothing else, which stand for a number of 32 bits.
pub open spec fn parsed_fd(text: Seq<u8>) -> Option<i32> {
    let signed = text.len() > 0 && (text[0] == 0x2d || text[0] == 0x2b);
    let digits = if signed {
        text.skip(1)
    } else {
        text
    };
    let value = if text.len() > 0 && text[0] == 0x2d {
        -digits_value(digits)
    } else {
        digits_value(digits)
    };
    if digits.len() > 0 && all_digits(digits) && i32::MIN <= value <= i32::MAX {
        Some(value as i32)
    } else {
        None
    }
}

/// How to reach the compositor. An inherited socket comes first. Else the display's
/// name says where the socket is: by itself where it is an absolute path, else looked
/// up from the runtime directory, which must then be set and absolute.
pub open spec fn resolved(
    wayland_socket: Option<Seq<u8>>,
    wayland_display: Option<Seq<u8>>,
    xdg_runtime_dir: Option<Seq<u8>>,
) -> Result<Target, ConnectError> {
    match wayland_socket {
        Some(text) => match parsed_fd(text) {
            Some(fd) => Ok(Target::Inherited(fd)),
            None => Err(ConnectError::InvalidFd),
        },
        None => match wayland_display {
            None => Err(ConnectError::DisplayNotSet),
            Some(display) => if is_absolute(display) {
                Ok(Target::Path(display))
            } else {
                match xdg_runtime_dir {
                    None => Err(ConnectError::RuntimeDirNotSet),
                    Some(dir) => if is_absolute(dir) {
                        Ok(Target::Path(joined(dir, display)))
                    } else {
                        Err(ConnectError::RuntimeDirNotAbsolute)
                    },
                }
            },
        },
    }
}

/// The bytes of an optional value.
pub open spec fn bytes_of(value: Option<&[u8]>) -> Option<Seq<u8>> {
    match value {
        Some(bytes) => Some(bytes@),
        None => None,
    }
}

/// The descriptor that `text` names.
#[verifier::loop_isolation(false)]
pub fn parse_fd(text: &[u8]) -> (fd: Option<i32>)
    ensures
        fd == parsed_fd(text@),
{
    let n: usize = text.len();
    if n == 0 {
        return None;
    }
    let negative: bool = text[0] == 0x2d;
    let start: usize = if negative || text[0] == 0x2b {
        1
    } else {
        0
    };
    let ghost digits = text@.skip(start as int);
    assert(text@.skip(0) =~= text@);
    if start == n {
        return None;
    }
    let mut value: i64 = 0;
    let mut too_large: bool = false;
    let mut i: usize = start;
    while i < n
        invariant
            start <= i <= n,
            n == text@.len(),
            digits == text@.skip(start as int),
            forall|k: int| 0 <= k < i - start ==> is_digit(#[trigger] digits[k]),
            too_large ==> digits_value(digits.take(i - start)) > 0x8000_0000,
            !too_large ==> value == digits_value(digits.take(i - start)),
            0 <= value <= 0x8000_0000,
        decreases n - i,
    {
        let byte: u8 = text[i];
        assert(byte == digits[i - start]);
        if byte < 0x30 || byte > 0x39 {
            assert(!all_digits(digits)) by {
                assert(!is_digit(digits[i - start]));
            }
            return None;
        }
        assert(digits.take(i - start + 1).drop_last() =~= digits.take(i - start));
        if !too_large {
            value = value * 10 + (byte - 0x30) as i64;
            if value > 0x8000_0000 {
                too_large = true;
                value = 0;
            }
        }
        i = i + 1;
    }
    assert(digits.take(n - start) =~= digits);
    assert(all_digits(digits));
    if too_large {
        None
    } else if negative {
        Some((-value) as i32)
    } else if value > 0x7fff_ffff {
        None
    } else {
        Some(value as i32)
    }
}

/// How to reach the compositor, from the values of `WAYLAND_SOCKET`, `WAYLAND_DISPLAY`
/// and `XDG_RUNTIME_DIR`, each `None` where the variable is not set.
pub fn connection_target(
    wayland_socket: Option<&[u8]>,
    wayland_display: Option<&[u8]>,
    xdg_runtime_dir: Option<&[u8]>,
) -> (target: Result<ConnectTarget, ConnectError>)
    ensures
        match target {
            Ok(found) => resolved(
                bytes_of(wayland_socket),
                bytes_of(wayland_display),
                bytes_of(xdg_runtime_dir),
            ) == Ok::<Target, ConnectError>(found@),
            Err(error) => resolved(
                bytes_of(wayland_socket),
                bytes_of(wayland_display),
                bytes_of(xdg_runtime_dir),
            ) == Err::<Target, ConnectError>(error),
        },
{
    if let Some(text) = wayland_socket {
        return match parse_fd(text) {
            Some(fd) => Ok(ConnectTarget::Inherited(fd)),
            None => Err(ConnectError::InvalidFd),
        };
    }
    let display = match wayland_display {
        Some(display) => display,
        None => {
            return Err(ConnectError::DisplayNotSet);
        },
    };
    if starts_at_root(display) {
        let mut path: Vec<u8> = Vec::new();
        crate::path::push_all(&mut path, display);
        return Ok(ConnectTarget::Path(path));
    }
    match xdg_runtime_dir {
        None => Err(ConnectError::RuntimeDirNotSet),
        Some(dir) => {
            if starts_at_root(dir) {
                Ok(ConnectTarget::Path(join(dir, display)))
            } else {
                Err(ConnectError::RuntimeDirNotAbsolute)
            }
        },
    }
}

} // verus!
