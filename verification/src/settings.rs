//! The output settings: which line ending a saved file gets, and how long a
//! generated secret is.
use vstd::prelude::*;

verus! {

/// The platform whose line endings a saved file uses.
#[derive(Debug, Clone, Copy, PartialEq, Eq, Structural)]
pub enum TargetOsFormat {
    Linux,
    Windows,
}

/// The line ending for each platform.
pub open spec fn eol_of(f: TargetOsFormat) -> Seq<char> {
    match f {
        TargetOsFormat::Linux => seq!['\n'],
        TargetOsFormat::Windows => seq!['\r', '\n'],
    }
}

/// The label under which each platform is offered.
pub open spec fn format_label(f: TargetOsFormat) -> Seq<char> {
    match f {
        TargetOsFormat::Linux => "Linux / Docker (LF)"@,
        TargetOsFormat::Windows => "Windows (CRLF)"@,
    }
}

impl TargetOsFormat {
    /// The line ending: `"\n"` for Linux, `"\r\n"` for Windows.
    pub fn eol(&self) -> (s: &'static str)
        ensures
            s@ == eol_of(*self),
    {
        proof {
            reveal_strlit("\n");
            reveal_strlit("\r\n");
        }
        match self {
            TargetOsFormat::Linux => "\n",
            TargetOsFormat::Windows => "\r\n",
        }
    }

    pub fn label(&self) -> (s: &'static str)
        ensures
            s@ == format_label(*self),
    {
        match self {
            TargetOsFormat::Linux => "Linux / Docker (LF)",
            TargetOsFormat::Windows => "Windows (CRLF)",
        }
    }
}

/// The length of a generated secret.
#[derive(Debug, Clone, Copy, PartialEq, Eq, Structural)]
pub enum SecretLength {
    Bytes16,
    Bytes32,
}

/// The number of random bytes of each length.
pub open spec fn secret_bytes(l: SecretLength) -> nat {
    match l {
        SecretLength::Bytes16 => 16,
        SecretLength::Bytes32 => 32,
    }
}

/// The label under which each length is offered.
pub open spec fn secret_label(l: SecretLength) -> Seq<char> {
    match l {
        SecretLength::Bytes16 => "32 Chars (16B)"@,
        SecretLength::Bytes32 => "64 Chars (32B)"@,
    }
}

impl SecretLength {
    pub fn byte_count(&self) -> (n: usize)
        ensures
            n == secret_bytes(*self),
    {
        match self {
            SecretLength::Bytes16 => 16,
            SecretLength::Bytes32 => 32,
        }
    }

    pub fn label(&self) -> (s: &'static str)
        ensures
            s@ == secret_label(*self),
    {
        match self {
            SecretLength::Bytes16 => "32 Chars (16B)",
            SecretLength::Bytes32 => "64 Chars (32B)",
        }
    }
}

} // verus!
