use vstd::prelude::*;

verus! {

/// The character of a decimal digit.
pub open spec fn digit_char(d: nat) -> char {
    if d == 0 {
        '0'
    } else if d == 1 {
        '1'
    } else if d == 2 {
        '2'
    } else if d == 3 {
        '3'
    } else if d == 4 {
        '4'
    } else if d == 5 {
        '5'
    } else if d == 6 {
        '6'
    } else if d == 7 {
        '7'
    } else if d == 8 {
        '8'
    } else {
        '9'
    }
}

/// The decimal notation of a natural number, without leading zeros.
pub open spec fn decimal(n: nat) -> Seq<char>
    decreases n,
{
    if n < 10 {
        seq![digit_char(n)]
    } else {
        decimal(n / 10).push(digit_char(n % 10))
    }
}

fn digit_str(d: u16) -> (r: &'static str)
    requires
        d < 10,
    ensures
        r@ == seq![digit_char(d as nat)],
{
    proof {
        reveal_strlit("0");
        reveal_strlit("1");
        reveal_strlit("2");
        reveal_strlit("3");
        reveal_strlit("4");
        reveal_strlit("5");
        reveal_strlit("6");
        reveal_strlit("7");
        reveal_strlit("8");
        reveal_strlit("9");
    }
    let r = match d {
        0 => "0",
        1 => "1",
        2 => "2",
        3 => "3",
        4 => "4",
        5 => "5",
        6 => "6",
        7 => "7",
        8 => "8",
        _ => "9",
    };
    assert(r@ =~= seq![digit_char(d as nat)]);
    r
}

/// Renders `n` in decimal notation.
pub fn render_decimal(n: u16) -> (r: String)
    ensures
        r@ == decimal(n as nat),
    decreases n,
{
    if n < 10 {
        String::from_str(digit_str(n))
    } else {
        let mut s = render_decimal(n / 10);
        s.append(digit_str(n % 10));
        proof {
            assert(s@ =~= decimal((n / 10) as nat).push(digit_char((n % 10) as nat)));
        }
        s
    }
}

/// What can go wrong in a call to the API.
#[derive(Debug)]
pub enum UtilsError {
    /// The request could not be sent or its response could not be read;
    /// holds the transport's description of the failure.
    Http(String),
    /// A local file that a request needs could not be read; holds the
    /// system's description of the failure.
    Io(String),
    /// A configuration variable is absent; holds its name.
    NotSet(String),
    /// A configuration variable is set, but not to valid Unicode; holds its
    /// name, and its value with each invalid sequence replaced by U+FFFD.
    NotUnicode { name: String, value: String },
    /// The API key cannot be carried in an HTTP header.
    InvalidApiKey,
    /// The server answered with a status outside 200..=299.
    Status { code: u16, body: Vec<u8> },
}

impl UtilsError {
    /// A human-readable description of the error.
    pub fn message(&self) -> (r: String)
        ensures
            r@ == self.message_spec(),
    {
        match self {
            UtilsError::Http(m) => String::from_str("HTTP Error: ").concat(m.as_str()),
            UtilsError::Io(m) => String::from_str("IO Error: ").concat(m.as_str()),
            UtilsError::NotSet(v) => v.clone().concat(" is not set"),
            UtilsError::NotUnicode { name, .. } => name.clone().concat(" is not valid Unicode"),
            UtilsError::InvalidApiKey => String::from_str("the API key is not a valid header value"),
            UtilsError::Status { code, .. } => String::from_str("request failed: HTTP ").concat(
                render_decimal(*code).as_str(),
            ),
        }
    }

    pub open spec fn message_spec(&self) -> Seq<char> {
        match self {
            UtilsError::Http(m) => "HTTP Error: "@ + m@,
            UtilsError::Io(m) => "IO Error: "@ + m@,
            UtilsError::NotSet(v) => v@ + " is not set"@,
            UtilsError::NotUnicode { name, .. } => name@ + " is not valid Unicode"@,
            UtilsError::InvalidApiKey => "the API key is not a valid header value"@,
            UtilsError::Status { code, .. } => "request failed: HTTP "@ + decimal(*code as nat),
        }
    }

    /// The HTTP status that the server answered with, if that is the error.
    pub fn status(&self) -> (r: Option<u16>)
        ensures
            r == (match self {
                UtilsError::Status { code, .. } => Some(*code),
                _ => None::<u16>,
            }),
    {
        match self {
            UtilsError::Status { code, .. } => Some(*code),
            _ => None,
        }
    }

    /// The description of the underlying failure, for the errors that wrap
    /// one: the transport's or the file system's.
    pub fn cause(&self) -> (r: Option<&String>)
        ensures
            r == (match self {
                UtilsError::Http(m) => Some(m),
                UtilsError::Io(m) => Some(m),
                _ => None::<&String>,
            }),
    {
        match self {
            UtilsError::Http(m) => Some(m),
            UtilsError::Io(m) => Some(m),
            _ => None,
        }
    }
}

} // verus!
