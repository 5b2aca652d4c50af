//! The error taxonomy of the video library. Every operation either fully
//! succeeds or surfaces a single descriptive error; there is no retry and no
//! partial success.
use vstd::prelude::*;
use vstd::string::*;

verus! {

/// Why a library operation failed.
#[derive(Debug, Clone, PartialEq, Eq)]
pub enum VideoError {
    /// The home-directory variable was unset or unreadable.
    Environment,
    /// The HTTP fetch answered with a non-success status.
    RemoteFetch { status: u16 },
    /// A file or directory create, read or write failed.
    Io { message: String },
    /// The player or opener process could not be spawned.
    Launch { message: String },
    /// Batch playback was asked for while no videos are stored.
    EmptyLibrary,
}

/// The decimal digit characters of `n`, most significant first.
pub open spec fn spec_decimal(n: nat) -> Seq<char>
    decreases n,
{
    if n < 10 {
        seq![spec_digit_char(n)]
    } else {
        spec_decimal(n / 10).push(spec_digit_char(n % 10))
    }
}

/// The character for a single decimal digit.
pub open spec fn spec_digit_char(d: nat) -> char
    recommends
        d < 10,
{
    if d == 0 {
        '0'
    } else if d == 1 {
        '1'
    } else if d == 2 {
        '2'
    } else if d == 3 {
        '3'
    } else if d == 4 {
        '4'
    } else if d == 5 {
        '5'
    } else if d == 6 {
        '6'
    } else if d == 7 {
        '7'
    } else if d == 8 {
        '8'
    } else {
        '9'
    }
}

fn digit_str(d: u16) -> (r: &'static str)
    requires
        d < 10,
    ensures
        r@ == seq![spec_digit_char(d as nat)],
{
    proof {
        reveal_strlit("0");
        reveal_strlit("1");
        reveal_strlit("2");
        reveal_strlit("3");
        reveal_strlit("4");
        reveal_strlit("5");
        reveal_strlit("6");
        reveal_strlit("7");
        reveal_strlit("8");
        reveal_strlit("9");
    }
    let r = match d {
        0 => "0",
        1 => "1",
        2 => "2",
        3 => "3",
        4 => "4",
        5 => "5",
        6 => "6",
        7 => "7",
        8 => "8",
        _ => "9",
    };
    proof {
        assert(r@ =~= seq![spec_digit_char(d as nat)]);
    }
    r
}

/// Renders a status code (or any small number) in decimal.
pub fn decimal_string(n: u16) -> (r: String)
    ensures
        r@ == spec_decimal(n as nat),
    decreases n,
{
    if n < 10 {
        digit_str(n).to_owned()
    } else {
        let rest = decimal_string(n / 10);
        let last = digit_str(n % 10);
        let r = rest.concat(last);
        proof {
            assert(r@ =~= spec_decimal(n as nat));
        }
        r
    }
}

impl VideoError {
    /// The descriptive text surfaced to the caller for this failure.
    pub open spec fn spec_message(self) -> Seq<char> {
        match self {
            VideoError::Environment => "home directory is not set"@,
            VideoError::RemoteFetch { status } => "HTTP error: "@ + spec_decimal(status as nat),
            VideoError::Io { message } => message@,
            VideoError::Launch { message } => message@,
            VideoError::EmptyLibrary => "No videos found"@,
        }
    }

    /// Renders the failure as the single descriptive string the caller sees.
    pub fn message(&self) -> (r: String)
        ensures
            r@ == self.spec_message(),
    {
        match self {
            VideoError::Environment => "home directory is not set".to_owned(),
            VideoError::RemoteFetch { status } => {
                let digits = decimal_string(*status);
                "HTTP error: ".to_owned().concat(digits.as_str())
            },
            VideoError::Io { message } => message.clone(),
            VideoError::Launch { message } => message.clone(),
            VideoError::EmptyLibrary => "No videos found".to_owned(),
        }
    }
}

} // verus!
