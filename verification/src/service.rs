//! Rules of the payment service that stands around the domain model: its
//! configuration, the paging of listings, and how a payment request is
//! answered.

use vstd::prelude::*;
use vstd::string::*;
use crate::decimal::Decimal;
use crate::unique::{fresh_time_ordered_uuid, is_hyphenated_uuid};

verus! {

/// The port the service listens on where none is configured.
pub const DEFAULT_PORT: u16 = 8084;

/// The page shown where none is asked for.
pub const DEFAULT_PAGE: u32 = 1;

/// The length of a page where none is asked for.
pub const DEFAULT_PER_PAGE: u32 = 20;

/// The greatest length of a page.
pub const MAX_PER_PAGE: u32 = 100;

/// The number of decimal places of an amount given in the smallest unit of
/// its currency.
pub const MINOR_UNIT_SCALE: u32 = 2;

/// Whether `c` is one of the ten ASCII digits.
pub open spec fn is_ascii_digit(c: char) -> bool {
    '0' <= c && c <= '9'
}

/// The number that a string of ASCII digits writes in base ten.
pub open spec fn digits_value(digits: Seq<char>) -> int
    decreases digits.len(),
{
    if digits.len() == 0 {
        0
    } else {
        10 * digits_value(digits.drop_last()) + (digits.last() as int - '0' as int)
    }
}

/// What the standard library's parsing of a `u16` makes of a text. The
/// text is a number if it is an optional `+` followed by at least one
/// ASCII digit and nothing else, and the digits write a number of at most
/// 65535 in base ten; leading zeros do not count.
pub open spec fn parsed_port(text: Seq<char>) -> Option<u16> {
    let digits = if text.len() > 0 && text[0] == '+' {
        text.subrange(1, text.len() as int)
    } else {
        text
    };
    if digits.len() > 0 && (forall|i: int|
        0 <= i < digits.len() ==> is_ascii_digit(#[trigger] digits[i])) && digits_value(digits)
        <= u16::MAX {
        Some(digits_value(digits) as u16)
    } else {
        None
    }
}

/// Calls `str::parse::<u16>` and drops the reason of a failure. What is
/// left is the number that the text writes, as the standard library
/// documents the parsing of an unsigned integer.
#[verifier::external_body]
fn parse_port_outside(text: &str) -> (r: Option<u16>)
    ensures
        r == parsed_port(text@),
{
    text.parse::<u16>().ok()
}

/// Settings of the service.
#[derive(Debug)]
pub struct Config {
    pub port: u16,
    pub database_url: String,
    pub nats_url: Option<String>,
    pub paystack_secret: Option<String>,
    pub flutterwave_secret: Option<String>,
}

impl Config {
    /// The port to listen on, given what parsing the configured text gave:
    /// the parsed port, or the default where there is none.
    pub fn port_or_default(parsed: Option<u16>) -> (port: u16)
        ensures
            port == match parsed {
                Some(p) => p,
                None => DEFAULT_PORT,
            },
    {
        match parsed {
            Some(p) => p,
            None => DEFAULT_PORT,
        }
    }

    /// The port to listen on, given the configured text if there is one:
    /// the default where the text is missing or is not a port.
    pub fn port_from(text: Option<&str>) -> (port: u16)
        ensures
            port == match text {
                Some(t) => match parsed_port(t@) {
                    Some(p) => p,
                    None => DEFAULT_PORT,
                },
                None => DEFAULT_PORT,
            },
    {
        match text {
            Some(t) => Self::port_or_default(parse_port_outside(t)),
            None => DEFAULT_PORT,
        }
    }

    /// The settings made of the configured values.
    pub fn from_values(
        port: Option<&str>,
        database_url: String,
        nats_url: Option<String>,
        paystack_secret: Option<String>,
        flutterwave_secret: Option<String>,
    ) -> (c: Config)
        ensures
            c.port == match port {
                Some(t) => match parsed_port(t@) {
                    Some(p) => p,
                    None => DEFAULT_PORT,
                },
                None => DEFAULT_PORT,
            },
            c.database_url == database_url,
            c.nats_url == nats_url,
            c.paystack_secret == paystack_secret,
            c.flutterwave_secret == flutterwave_secret,
    {
        Config {
            port: Self::port_from(port),
            database_url,
            nats_url,
            paystack_secret,
            flutterwave_secret,
        }
    }
}

/// Which rows of a listing a page holds.
#[derive(Clone, Copy, Debug, PartialEq, Eq, Structural)]
pub struct PageWindow {
    pub page: u32,
    pub per_page: u32,
    pub offset: i64,
}

/// The window of the page asked for: pages count from 1, a page holds 20
/// rows unless asked otherwise and never more than 100, and the window
/// starts after the rows of the pages before it.
pub fn page_window(page: Option<u32>, per_page: Option<u32>) -> (w: PageWindow)
    ensures
        w.page == match page {
            Some(p) => if p >= 1 {
                p
            } else {
                1
            },
            None => DEFAULT_PAGE,
        },
        w.per_page == match per_page {
            Some(n) => if n <= MAX_PER_PAGE {
                n
            } else {
                MAX_PER_PAGE
            },
            None => DEFAULT_PER_PAGE,
        },
        w.offset == (w.page - 1) * w.per_page,
        w.page >= 1,
        w.per_page <= MAX_PER_PAGE,
        w.offset >= 0,
{
    let page = match page {
        Some(p) => if p >= 1 {
            p
        } else {
            1
        },
        None => DEFAULT_PAGE,
    };
    let per_page = match per_page {
        Some(n) => if n <= MAX_PER_PAGE {
            n
        } else {
            MAX_PER_PAGE
        },
        None => DEFAULT_PER_PAGE,
    };
    let before: i64 = (page - 1) as i64;
    let rows: i64 = per_page as i64;
    assert(0 <= before * rows <= 0xFFFF_FFFF * 100) by (nonlinear_arith)
        requires
            0 <= before <= 0xFFFF_FFFF,
            0 <= rows <= 100,
    ;
    PageWindow { page, per_page, offset: before * rows }
}

/// A page of a listing.
#[derive(Debug)]
pub struct PaginatedResponse<T> {
    pub data: Vec<T>,
    pub total: i64,
    pub page: u32,
    pub per_page: u32,
}

impl<T> PaginatedResponse<T> {
    /// The rows of the window `w` out of `total` rows.
    pub fn new(data: Vec<T>, total: i64, w: PageWindow) -> (r: Self)
        ensures
            r.data == data,
            r.total == total,
            r.page == w.page,
            r.per_page == w.per_page,
    {
        PaginatedResponse { data, total, page: w.page, per_page: w.per_page }
    }
}

/// The amount of `amount` smallest units of a currency, which has two
/// decimal places.
pub fn minor_units(amount: i64) -> (d: Decimal)
    ensures
        d.spec_mantissa() == amount,
        d.spec_scale() == MINOR_UNIT_SCALE,
{
    Decimal::new(amount, MINOR_UNIT_SCALE)
}

/// The amount to refund where the request may leave it out: nothing then.
pub fn refund_units(amount: Option<i64>) -> (d: Decimal)
    ensures
        d.spec_mantissa() == match amount {
            Some(a) => a,
            None => 0,
        },
        d.spec_scale() == MINOR_UNIT_SCALE,
{
    match amount {
        Some(a) => minor_units(a),
        None => minor_units(0),
    }
}

/// The text of the reference of a transaction with the unique part `unique`.
pub open spec fn reference_text(unique: Seq<char>) -> Seq<char> {
    "TXN-"@ + unique
}

/// The text of the address at which the payment with the reference
/// `reference` is authorised.
pub open spec fn checkout_text(reference: Seq<char>) -> Seq<char> {
    "https://checkout.paystack.com/"@ + reference
}

/// The reference of a transaction with the unique part `unique`.
pub fn transaction_reference(unique: &str) -> (r: String)
    ensures
        r@ == reference_text(unique@),
{
    String::from_str("TXN-").concat(unique)
}

/// A reference for a new transaction: `TXN-` and a fresh time-ordered UUID.
pub fn fresh_reference() -> (r: String)
    ensures
        exists|u: Seq<char>| is_hyphenated_uuid(u) && r@ == #[trigger] reference_text(u),
{
    let u = fresh_time_ordered_uuid();
    transaction_reference(u.as_str())
}

/// The currency of a request that may leave it out: the naira then.
pub fn currency_or_default<'a>(currency: Option<&'a str>) -> (c: &'a str)
    ensures
        c@ == match currency {
            Some(code) => code@,
            None => "NGN"@,
        },
{
    match currency {
        Some(code) => code,
        None => "NGN",
    }
}

/// The answer to a request to start a payment.
#[derive(Debug)]
pub struct InitiatePaymentResponse {
    pub reference: String,
    pub authorization_url: Option<String>,
    pub status: String,
}

impl InitiatePaymentResponse {
    /// The answer for a payment that now waits to be authorised at the
    /// checkout address of its reference.
    pub fn pending(reference: String) -> (r: Self)
        ensures
            r.reference == reference,
            r.authorization_url is Some,
            r.authorization_url->0@ == checkout_text(reference@),
            r.status@ == "pending"@,
    {
        let url = String::from_str("https://checkout.paystack.com/").concat(reference.as_str());
        InitiatePaymentResponse {
            reference,
            authorization_url: Some(url),
            status: String::from_str("pending"),
        }
    }
}

} // verus!
