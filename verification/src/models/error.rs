use vstd::prelude::*;
use vstd::string::StringExecFns;

verus! {

/// The HTTP status `500 Internal Server Error`.
pub const INTERNAL_SERVER_ERROR: u16 = 500;

/// The HTTP status `404 Not Found`.
pub const NOT_FOUND: u16 = 404;

/// The HTTP status `200 OK`.
pub const OK: u16 = 200;

/// An error as it is answered: a message and an HTTP status code.
#[derive(Clone, Debug, PartialEq, Eq)]
pub struct ErrorResponse {
    pub error: String,
    pub status_code: u16,
}

/// What a failed read or write of the item store reported: its debug text.
#[derive(Clone, Debug, PartialEq, Eq)]
pub struct DatabaseError {
    pub detail: String,
}

/// The ways adding an item can fail.
#[derive(Clone, Debug, PartialEq, Eq)]
pub enum APIError {
    InvalidCategory(String),
    ItemAlreadyExists(String),
    AddingItemError(DatabaseError),
    ItemNotFound(i32),
}

/// The value of an `APIError`.
pub enum APIErrorView {
    InvalidCategory(Seq<char>),
    ItemAlreadyExists(Seq<char>),
    AddingItemError(Seq<char>),
    ItemNotFound(i32),
}

impl View for APIError {
    type V = APIErrorView;

    open spec fn view(&self) -> APIErrorView {
        match self {
            APIError::InvalidCategory(c) => APIErrorView::InvalidCategory(c@),
            APIError::ItemAlreadyExists(n) => APIErrorView::ItemAlreadyExists(n@),
            APIError::AddingItemError(e) => APIErrorView::AddingItemError(e.detail@),
            APIError::ItemNotFound(id) => APIErrorView::ItemNotFound(*id),
        }
    }
}

/// The character of a decimal digit.
pub open spec fn digit_char(d: int) -> char {
    if d == 0 { '0' }
    else if d == 1 { '1' }
    else if d == 2 { '2' }
    else if d == 3 { '3' }
    else if d == 4 { '4' }
    else if d == 5 { '5' }
    else if d == 6 { '6' }
    else if d == 7 { '7' }
    else if d == 8 { '8' }
    else { '9' }
}

/// The decimal digits of a natural number, most significant first, without
/// leading zeros (`0` for zero).
pub open spec fn natural_digits(n: nat) -> Seq<char>
    decreases n,
{
    if n < 10 {
        seq![digit_char(n as int)]
    } else {
        natural_digits(n / 10).push(digit_char((n % 10) as int))
    }
}

/// The decimal text of an integer, with a leading `-` when it is negative.
pub open spec fn decimal_text(n: int) -> Seq<char> {
    if n < 0 {
        seq!['-'] + natural_digits((-n) as nat)
    } else {
        natural_digits(n as nat)
    }
}

/// The message an error is answered with.
pub open spec fn error_message(e: APIErrorView) -> Seq<char> {
    match e {
        APIErrorView::InvalidCategory(c) => "Invalid category: "@ + c,
        APIErrorView::ItemAlreadyExists(n) => "Item is already exists: "@ + n,
        APIErrorView::AddingItemError(d) => "Failed to add item: "@ + d,
        APIErrorView::ItemNotFound(id) => "Item not found: "@ + decimal_text(id as int),
    }
}

/// The one-character text of a decimal digit.
fn digit_str(d: u64) -> (s: &'static str)
    requires
        d < 10,
    ensures
        s@ == seq![digit_char(d as int)],
{
    proof {
        reveal_strlit("0");
        reveal_strlit("1");
        reveal_strlit("2");
        reveal_strlit("3");
        reveal_strlit("4");
        reveal_strlit("5");
        reveal_strlit("6");
        reveal_strlit("7");
        reveal_strlit("8");
        reveal_strlit("9");
    }
    if d == 0 { "0" }
    else if d == 1 { "1" }
    else if d == 2 { "2" }
    else if d == 3 { "3" }
    else if d == 4 { "4" }
    else if d == 5 { "5" }
    else if d == 6 { "6" }
    else if d == 7 { "7" }
    else if d == 8 { "8" }
    else { "9" }
}

/// Appends the decimal digits of `n` to `s`.
fn push_natural_digits(n: u64, s: &mut String)
    ensures
        final(s)@ == old(s)@ + natural_digits(n as nat),
    decreases n,
{
    if n >= 10 {
        push_natural_digits(n / 10, s);
        s.append(digit_str(n % 10));
        proof {
            assert(natural_digits(n as nat) == natural_digits((n / 10) as nat).push(digit_char((n % 10) as int)));
        }
    } else {
        s.append(digit_str(n));
    }
}

/// Appends the decimal text of `n` to `s`.
pub fn push_decimal(n: i32, s: &mut String)
    ensures
        final(s)@ == old(s)@ + decimal_text(n as int),
{
    if n < 0 {
        proof {
            reveal_strlit("-");
        }
        s.append("-");
        let magnitude: i64 = -(n as i64);
        push_natural_digits(magnitude as u64, s);
        proof {
            assert(old(s)@ + seq!['-'] + natural_digits((-n) as nat) =~= old(s)@ + (seq!['-'] + natural_digits((-n) as nat)));
        }
    } else {
        push_natural_digits(n as u64, s);
    }
}

/// Errors that can be answered to the client.
pub trait IntoErrorResponse {
    fn error(&self) -> ErrorResponse;
}

impl IntoErrorResponse for APIError {
    /// Every error is answered with status 500 and a message naming what failed.
    fn error(&self) -> (r: ErrorResponse)
        ensures
            r.status_code == INTERNAL_SERVER_ERROR,
            r.error@ == error_message(self@),
    {
        match self {
            APIError::InvalidCategory(category) => {
                let mut error = String::from_str("Invalid category: ");
                error.append(category.as_str());
                ErrorResponse { error, status_code: INTERNAL_SERVER_ERROR }
            },
            APIError::ItemAlreadyExists(name) => {
                let mut error = String::from_str("Item is already exists: ");
                error.append(name.as_str());
                ErrorResponse { error, status_code: INTERNAL_SERVER_ERROR }
            },
            APIError::AddingItemError(err) => {
                let mut error = String::from_str("Failed to add item: ");
                error.append(err.detail.as_str());
                ErrorResponse { error, status_code: INTERNAL_SERVER_ERROR }
            },
            APIError::ItemNotFound(id) => {
                let mut error = String::from_str("Item not found: ");
                push_decimal(*id, &mut error);
                ErrorResponse { error, status_code: INTERNAL_SERVER_ERROR }
            },
        }
    }
}

/// The answer to a request for a route that does not exist.
pub fn not_found() -> (r: ErrorResponse)
    ensures
        r.status_code == NOT_FOUND,
        r.error@ == "Endpoint not found"@,
{
    ErrorResponse { error: String::from_str("Endpoint not found"), status_code: NOT_FOUND }
}

/// The answer to a health check: status 200 and the text `OK`.
pub fn health_check() -> (r: (u16, String))
    ensures
        r.0 == OK,
        r.1@ == "OK"@,
{
    (OK, String::from_str("OK"))
}

} // verus!
