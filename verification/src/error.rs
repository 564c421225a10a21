//! The errors of the library, and how an exception of the native library
//! becomes one of them.

use vstd::prelude::*;
use vstd::string::*;
use crate::native::DeviceOS;

verus! {

/// What can go wrong when a device is fetched or used.
#[derive(Debug)]
pub enum Error {
    /// Devices are counted from one: `num` was zero.
    InvalidDeviceNum { num: usize },
    /// The native library has no device of this family under `num`.
    DeviceNotFound { device_type: &'static str, num: usize },
    /// The device under `num` runs another system than the one asked for.
    DeviceHasWrongOS {
        device_type: &'static str,
        num: usize,
        actual_os: DeviceOS,
        expected_os: DeviceOS,
    },
    /// The native library raised a runtime error.
    CXXRuntime { msg: String },
    /// The native library raised any other exception.
    CXXException { msg: String },
}

/// An [`Error`] with its texts as sequences of characters.
pub enum ErrorView {
    InvalidDeviceNum { num: usize },
    DeviceNotFound { device_type: Seq<char>, num: usize },
    DeviceHasWrongOS {
        device_type: Seq<char>,
        num: usize,
        actual_os: DeviceOS,
        expected_os: DeviceOS,
    },
    CXXRuntime { msg: Seq<char> },
    CXXException { msg: Seq<char> },
}

impl View for Error {
    type V = ErrorView;

    open spec fn view(&self) -> ErrorView {
        match *self {
            Error::InvalidDeviceNum { num } => ErrorView::InvalidDeviceNum { num },
            Error::DeviceNotFound { device_type, num } => ErrorView::DeviceNotFound {
                device_type: device_type@,
                num,
            },
            Error::DeviceHasWrongOS {
                device_type,
                num,
                actual_os,
                expected_os,
            } => ErrorView::DeviceHasWrongOS {
                device_type: device_type@,
                num,
                actual_os,
                expected_os,
            },
            Error::CXXRuntime { msg } => ErrorView::CXXRuntime { msg: msg@ },
            Error::CXXException { msg } => ErrorView::CXXException { msg: msg@ },
        }
    }
}

/// The category under which the native library reports a runtime error.
pub open spec fn runtime_category() -> Seq<char> {
    seq!['R', 'U', 'N', 'T', 'I', 'M', 'E']
}

/// The category under which it reports any other standard exception.
pub open spec fn std_category() -> Seq<char> {
    seq!['S', 'T', 'D']
}

/// The category under which it reports what is no standard exception.
pub open spec fn unknown_category() -> Seq<char> {
    seq!['U', 'N', 'K', 'N', 'O', 'W', 'N']
}

/// The message that stands for an exception of the unknown category.
pub open spec fn unknown_message() -> Seq<char> {
    "unknown error"@
}

/// What is put before a text that could not be read.
pub open spec fn unhandled_prefix() -> Seq<char> {
    "unhandled error: "@
}

/// A category in its brackets, with the blank that parts it from the message.
pub open spec fn tag(category: Seq<char>) -> Seq<char> {
    seq!['['] + category + seq![']', ' ']
}

/// `text` has the shape `[CATEGORY] MESSAGE`, and `close` is where the
/// category's closing bracket stands: the first `]` of the text, right after
/// an opening bracket at the start and right before a blank.
pub open spec fn closes_at(text: Seq<char>, close: int) -> bool {
    &&& 1 <= close
    &&& close + 1 < text.len()
    &&& text[0] == '['
    &&& text[close] == ']'
    &&& text[close + 1] == ' '
    &&& forall|j: int| 0 <= j < close ==> text[j] != ']'
}

/// The category and the message of a text of the shape `[CATEGORY] MESSAGE`;
/// `None` for a text of any other shape.
pub open spec fn split_tagged(text: Seq<char>) -> Option<(Seq<char>, Seq<char>)> {
    if exists|close: int| closes_at(text, close) {
        let close = choose|close: int| closes_at(text, close);
        Some((text.subrange(1, close), text.skip(close + 2)))
    } else {
        None
    }
}

/// The error that an exception with the text `what` stands for.
pub open spec fn translate(what: Seq<char>) -> ErrorView {
    match split_tagged(what) {
        Some((category, message)) => {
            if category == runtime_category() {
                ErrorView::CXXRuntime { msg: message }
            } else if category == std_category() {
                ErrorView::CXXException { msg: message }
            } else if category == unknown_category() {
                ErrorView::CXXException { msg: unknown_message() }
            } else {
                ErrorView::CXXException { msg: unhandled_prefix() + what }
            }
        },
        None => ErrorView::CXXException { msg: unhandled_prefix() + what },
    }
}

/// A text has at most one place where its category closes.
pub proof fn lemma_close_unique(text: Seq<char>, a: int, b: int)
    requires
        closes_at(text, a),
        closes_at(text, b),
    ensures
        a == b,
{
    if a < b {
        assert(text[a] != ']');
    } else if b < a {
        assert(text[b] != ']');
    }
}

/// A text begins with the tag of a category that holds no `]` exactly if it
/// splits into that category and a message, which is then the rest of the
/// text.
pub proof fn lemma_split_by_tag(text: Seq<char>, category: Seq<char>)
    requires
        !category.contains(']'),
    ensures
        tag(category).is_prefix_of(text) <==> (split_tagged(text) is Some && split_tagged(
            text,
        ).unwrap().0 == category),
        tag(category).is_prefix_of(text) ==> split_tagged(text) == Some(
            (category, text.skip((category.len() + 3) as int)),
        ),
{
    let t = tag(category);
    let n = category.len() as int;
    assert(t.len() == n + 3);
    if t.is_prefix_of(text) {
        assert(text.subrange(0, n + 3) == t);
        assert forall|j: int| 0 <= j < n + 3 implies text[j] == t[j] by {
            assert(text.subrange(0, n + 3)[j] == text[j]);
        }
        assert(t[0] == '[');
        assert(t[n + 1] == ']');
        assert(t[n + 2] == ' ');
        assert forall|j: int| 0 <= j < n + 1 implies text[j] != ']' by {
            if j >= 1 {
                assert(t[j] == category[j - 1]);
                assert(category.contains(category[j - 1]));
            }
        }
        assert(closes_at(text, n + 1));
        let close = choose|close: int| closes_at(text, close);
        lemma_close_unique(text, close, n + 1);
        assert(text.subrange(1, n + 1) =~= category);
    }
    if split_tagged(text) is Some && split_tagged(text).unwrap().0 == category {
        let close = choose|close: int| closes_at(text, close);
        assert(text.subrange(1, close) == category);
        assert(close == n + 1);
        assert forall|j: int| 0 <= j < n + 3 implies text[j] == t[j] by {
            if 1 <= j < n + 1 {
                assert(text.subrange(1, close)[j - 1] == text[j]);
            }
        }
        assert(t =~= text.subrange(0, n + 3));
    }
}

/// An exception that the native library raised, as `cxx` hands it over.
#[verifier::external_type_specification]
#[verifier::external_body]
pub struct ExException(cxx::Exception);

/// The text that an exception carries.
pub uninterp spec fn exception_text(exception: cxx::Exception) -> Seq<char>;

/// `cxx::Exception::what` gives the text that the exception carries. The
/// exception holds that text from the moment it is made and nothing changes
/// it, so that two calls on one exception give the same text.
pub assume_specification[ cxx::Exception::what ](exception: &cxx::Exception) -> (text: &str)
    ensures
        text@ == exception_text(*exception),
;

/// The rest of `text` behind `prefix`, where `text` begins with it.
fn strip_prefix<'a>(text: &'a str, prefix: &str) -> (rest: Option<&'a str>)
    ensures
        match rest {
            Some(r) => prefix@.is_prefix_of(text@) && r@ == text@.skip(prefix@.len() as int),
            None => !prefix@.is_prefix_of(text@),
        },
{
    let n: usize = text.unicode_len();
    let m: usize = prefix.unicode_len();
    if n < m {
        return None;
    }
    let mut i: usize = 0;
    while i < m
        invariant
            i <= m <= n,
            n == text@.len(),
            m == prefix@.len(),
            forall|j: int| 0 <= j < i ==> text@[j] == prefix@[j],
        decreases m - i,
    {
        if text.get_char(i) != prefix.get_char(i) {
            assert(text@.subrange(0, m as int)[i as int] != prefix@[i as int]);
            return None;
        }
        i += 1;
    }
    assert(prefix@ =~= text@.subrange(0, m as int));
    Some(text.substring_char(m, n))
}

impl Error {
    /// The error that a native exception stands for: what
    /// [`Error::from_what`] reads from its text.
    pub fn from_exception(exception: &cxx::Exception) -> (error: Error)
        ensures
            error@ == translate(exception_text(*exception)),
    {
        Error::from_what(exception.what())
    }

    /// Reads the text of a native exception. A text `[RUNTIME] MESSAGE` is a
    /// runtime error with that message, `[STD] MESSAGE` an exception with that
    /// message, and `[UNKNOWN] MESSAGE` an exception with the message
    /// `unknown error`. A text with another category, or of another shape, is
    /// an exception whose message is `unhandled error: ` and the whole text.
    pub fn from_what(what: &str) -> (error: Error)
        ensures
            error@ == translate(what@),
    {
        proof {
            reveal_strlit("[RUNTIME] ");
            reveal_strlit("[STD] ");
            reveal_strlit("[UNKNOWN] ");
            assert("[RUNTIME] "@ =~= tag(runtime_category()));
            assert("[STD] "@ =~= tag(std_category()));
            assert("[UNKNOWN] "@ =~= tag(unknown_category()));
            lemma_split_by_tag(what@, runtime_category());
            lemma_split_by_tag(what@, std_category());
            lemma_split_by_tag(what@, unknown_category());
        }
        if let Some(message) = strip_prefix(what, "[RUNTIME] ") {
            Error::CXXRuntime { msg: message.to_owned() }
        } else if let Some(message) = strip_prefix(what, "[STD] ") {
            Error::CXXException { msg: message.to_owned() }
        } else if strip_prefix(what, "[UNKNOWN] ").is_some() {
            Error::CXXException { msg: "unknown error".to_owned() }
        } else {
            Error::CXXException { msg: String::from_str("unhandled error: ").concat(what) }
        }
    }
}

/// What a caller gets for an answer of the native library: the value where
/// it gave one, and else the error that the text of its exception stands for.
pub open spec fn surfaced<T>(outcome: Result<T, String>) -> Result<T, ErrorView> {
    match outcome {
        Ok(value) => Ok(value),
        Err(what) => Err(translate(what@)),
    }
}

/// `result` is what a caller gets for the answer `outcome`.
pub open spec fn surfaces<T>(result: Result<T, Error>, outcome: Result<T, String>) -> bool {
    match result {
        Ok(value) => surfaced(outcome) == Ok::<T, ErrorView>(value),
        Err(error) => surfaced(outcome) == Err::<T, ErrorView>(error@),
    }
}

/// Hands the value of a native answer on, or reads the text of its exception.
pub fn surface<T>(outcome: Result<T, String>) -> (result: Result<T, Error>)
    ensures
        surfaces(result, outcome),
{
    match outcome {
        Ok(value) => Ok(value),
        Err(what) => Err(Error::from_what(what.as_str())),
    }
}

/// A text `[CATEGORY] MESSAGE` whose category holds no `]` is read by its
/// category: `RUNTIME` gives a runtime error with the message, `STD` an
/// exception with the message, `UNKNOWN` an exception with the message
/// `unknown error`, and any other category an exception whose message is
/// `unhandled error: ` and the whole text.
pub proof fn lemma_translate_tagged(category: Seq<char>, message: Seq<char>)
    requires
        !category.contains(']'),
    ensures
        translate(tag(category) + message) == if category == runtime_category() {
            ErrorView::CXXRuntime { msg: message }
        } else if category == std_category() {
            ErrorView::CXXException { msg: message }
        } else if category == unknown_category() {
            ErrorView::CXXException { msg: unknown_message() }
        } else {
            ErrorView::CXXException { msg: unhandled_prefix() + (tag(category) + message) }
        },
{
    let text = tag(category) + message;
    assert(tag(category) =~= text.subrange(0, tag(category).len() as int));
    lemma_split_by_tag(text, category);
    assert(text.skip((category.len() + 3) as int) =~= message);
}

/// A text that is not of the shape `[CATEGORY] MESSAGE` is an exception whose
/// message is `unhandled error: ` and the whole text.
pub proof fn lemma_translate_untagged(what: Seq<char>)
    requires
        split_tagged(what) is None,
    ensures
        translate(what) == (ErrorView::CXXException { msg: unhandled_prefix() + what }),
{
}

/// The ten digits, in order.
pub open spec fn digits() -> Seq<char> {
    seq!['0', '1', '2', '3', '4', '5', '6', '7', '8', '9']
}

/// A number written in decimal, without leading zeros.
pub open spec fn decimal(n: nat) -> Seq<char>
    decreases n,
{
    if n < 10 {
        seq![digits()[n as int]]
    } else {
        decimal(n / 10).push(digits()[(n % 10) as int])
    }
}

impl ErrorView {
    /// The sentence that tells a user of the error.
    pub open spec fn message(self) -> Seq<char> {
        match self {
            ErrorView::InvalidDeviceNum { num } => "invalid device number "@ + decimal(num as nat),
            ErrorView::DeviceNotFound { device_type, num } => device_type + " device "@ + decimal(
                num as nat,
            ) + " not found"@,
            ErrorView::DeviceHasWrongOS {
                device_type,
                num,
                actual_os,
                expected_os,
            } => device_type + " device "@ + decimal(num as nat) + " has wrong OS: "@
                + actual_os.label() + " instead of "@ + expected_os.label(),
            ErrorView::CXXRuntime { msg } => "CXX runtime error: "@ + msg,
            ErrorView::CXXException { msg } => "CXX exception: "@ + msg,
        }
    }
}

/// One digit as text.
fn digit_text(d: usize) -> (text: &'static str)
    requires
        d < 10,
    ensures
        text@ == seq![digits()[d as int]],
{
    proof {
        reveal_strlit("0");
        reveal_strlit("1");
        reveal_strlit("2");
        reveal_strlit("3");
        reveal_strlit("4");
        reveal_strlit("5");
        reveal_strlit("6");
        reveal_strlit("7");
        reveal_strlit("8");
        reveal_strlit("9");
    }
    let text = if d == 0 {
        "0"
    } else if d == 1 {
        "1"
    } else if d == 2 {
        "2"
    } else if d == 3 {
        "3"
    } else if d == 4 {
        "4"
    } else if d == 5 {
        "5"
    } else if d == 6 {
        "6"
    } else if d == 7 {
        "7"
    } else if d == 8 {
        "8"
    } else {
        "9"
    };
    assert(text@ =~= seq![digits()[d as int]]);
    text
}

/// Writes a number in decimal.
pub fn decimal_text(n: usize) -> (text: String)
    ensures
        text@ == decimal(n as nat),
    decreases n,
{
    if n < 10 {
        String::from_str(digit_text(n))
    } else {
        let text = decimal_text(n / 10).concat(digit_text(n % 10));
        assert(text@ =~= decimal(n as nat));
        text
    }
}

impl Error {
    /// The sentence that tells a user of the error.
    pub fn message(&self) -> (text: String)
        ensures
            text@ == self@.message(),
    {
        match self {
            Error::InvalidDeviceNum { num } => {
                String::from_str("invalid device number ").concat(decimal_text(*num).as_str())
            },
            Error::DeviceNotFound { device_type, num } => {
                String::from_str(device_type).concat(" device ").concat(
                    decimal_text(*num).as_str(),
                ).concat(" not found")
            },
            Error::DeviceHasWrongOS { device_type, num, actual_os, expected_os } => {
                String::from_str(device_type).concat(" device ").concat(
                    decimal_text(*num).as_str(),
                ).concat(" has wrong OS: ").concat(actual_os.as_str()).concat(
                    " instead of ",
                ).concat(expected_os.as_str())
            },
            Error::CXXRuntime { msg } => String::from_str("CXX runtime error: ").concat(
                msg.as_str(),
            ),
            Error::CXXException { msg } => String::from_str("CXX exception: ").concat(
                msg.as_str(),
            ),
        }
    }
}

} // verus!
