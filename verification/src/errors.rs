use vstd::prelude::*;
use vstd::string::*;

verus! {

/// The lowercase hexadecimal digit standing for a value below sixteen.
pub open spec fn hex_digit(d: u64) -> char
    recommends
        d < 16,
{
    if d == 0 {
        '0'
    } else if d == 1 {
        '1'
    } else if d == 2 {
        '2'
    } else if d == 3 {
        '3'
    } else if d == 4 {
        '4'
    } else if d == 5 {
        '5'
    } else if d == 6 {
        '6'
    } else if d == 7 {
        '7'
    } else if d == 8 {
        '8'
    } else if d == 9 {
        '9'
    } else if d == 10 {
        'a'
    } else if d == 11 {
        'b'
    } else if d == 12 {
        'c'
    } else if d == 13 {
        'd'
    } else if d == 14 {
        'e'
    } else {
        'f'
    }
}

/// The lowercase hexadecimal text of a value, most significant digit first,
/// with no leading zeroes (a single zero digit for zero itself).
pub open spec fn hex_seq(w: u64) -> Seq<char>
    decreases w,
{
    if w < 16 {
        seq![hex_digit(w)]
    } else {
        hex_seq(w / 16).push(hex_digit(w % 16))
    }
}

fn hex_digit_str(d: u64) -> (r: &'static str)
    requires
        d < 16,
    ensures
        r@ == seq![hex_digit(d)],
{
    let r: &'static str = if d == 0 {
        "0"
    } else if d == 1 {
        "1"
    } else if d == 2 {
        "2"
    } else if d == 3 {
        "3"
    } else if d == 4 {
        "4"
    } else if d == 5 {
        "5"
    } else if d == 6 {
        "6"
    } else if d == 7 {
        "7"
    } else if d == 8 {
        "8"
    } else if d == 9 {
        "9"
    } else if d == 10 {
        "a"
    } else if d == 11 {
        "b"
    } else if d == 12 {
        "c"
    } else if d == 13 {
        "d"
    } else if d == 14 {
        "e"
    } else {
        "f"
    };
    proof {
        reveal_strlit("0");
        reveal_strlit("1");
        reveal_strlit("2");
        reveal_strlit("3");
        reveal_strlit("4");
        reveal_strlit("5");
        reveal_strlit("6");
        reveal_strlit("7");
        reveal_strlit("8");
        reveal_strlit("9");
        reveal_strlit("a");
        reveal_strlit("b");
        reveal_strlit("c");
        reveal_strlit("d");
        reveal_strlit("e");
        reveal_strlit("f");
        assert(r@ =~= seq![hex_digit(d)]);
    }
    r
}

/// The lowercase hexadecimal text of a window handle.
pub fn hex_string(w: u64) -> (s: String)
    ensures
        s@ == hex_seq(w),
    decreases w,
{
    if w < 16 {
        String::from_str(hex_digit_str(w))
    } else {
        let mut s = hex_string(w / 16);
        s.append(hex_digit_str(w % 16));
        proof {
            assert(s@ =~= hex_seq(w));
        }
        s
    }
}

/// A domain-level failure carried to the caller; its text is what the
/// presentation layer shows.
#[derive(Debug)]
pub struct ErrorReport {
    pub message: String,
}

impl View for ErrorReport {
    type V = Seq<char>;

    open spec fn view(&self) -> Seq<char> {
        self.message@
    }
}

impl ErrorReport {
    pub fn new(message: String) -> (r: ErrorReport)
        ensures
            r@ == message@,
    {
        ErrorReport { message }
    }

    pub fn from_text(text: &str) -> (r: ErrorReport)
        ensures
            r@ == text@,
    {
        ErrorReport { message: String::from_str(text) }
    }

    /// A fresh report with the same text.
    pub fn duplicate(&self) -> (r: ErrorReport)
        ensures
            r@ == self@,
    {
        ErrorReport { message: self.message.clone() }
    }
}

/// A failure of the traversal and capture engine, each naming the window on
/// which the display-server call failed.
pub enum EngineError {
    /// A children query failed: the whole traversal aborts, since a partial
    /// tree cannot be trusted.
    TreeQuery { window: u64 },
    /// The geometry read failed: the capture aborts.
    Geometry { window: u64 },
    /// The pixel read failed: the capture aborts.
    PixelRead { window: u64 },
}

pub open spec fn tree_query_text(window: u64) -> Seq<char> {
    "Unable to query the root window tree for window "@ + hex_seq(window)
}

pub open spec fn geometry_text(window: u64) -> Seq<char> {
    "Unable to get the window attributes of 0x"@ + hex_seq(window)
}

pub open spec fn pixel_read_text(window: u64) -> Seq<char> {
    "Unable to get the pixel data from window 0x"@ + hex_seq(window)
}

pub open spec fn engine_error_text(e: EngineError) -> Seq<char> {
    match e {
        EngineError::TreeQuery { window } => tree_query_text(window),
        EngineError::Geometry { window } => geometry_text(window),
        EngineError::PixelRead { window } => pixel_read_text(window),
    }
}

impl EngineError {
    /// The window-identifying message for this failure.
    pub fn render(&self) -> (s: String)
        ensures
            s@ == engine_error_text(*self),
    {
        match self {
            EngineError::TreeQuery { window } => {
                let mut s = String::from_str("Unable to query the root window tree for window ");
                let h = hex_string(*window);
                s.append(h.as_str());
                s
            },
            EngineError::Geometry { window } => {
                let mut s = String::from_str("Unable to get the window attributes of 0x");
                let h = hex_string(*window);
                s.append(h.as_str());
                s
            },
            EngineError::PixelRead { window } => {
                let mut s = String::from_str("Unable to get the pixel data from window 0x");
                let h = hex_string(*window);
                s.append(h.as_str());
                s
            },
        }
    }

    pub fn to_report(&self) -> (r: ErrorReport)
        ensures
            r@ == engine_error_text(*self),
    {
        ErrorReport::new(self.render())
    }
}

} // verus!
