use vstd::prelude::*;
use vstd::string::*;
use crate::config::Config;

verus! {

/// An HTTP response as the two endpoints give it: a status code and a
/// plain-text body.
#[derive(Debug)]
pub struct Response {
    pub status: u16,
    pub body: String,
}

/// `GET /`: the configured greeting, unchanged.
pub fn home_handler(config: &Config) -> (r: Response)
    ensures
        r.status == 200,
        r.body@ == config.message@,
{
    Response { status: 200, body: config.message.clone() }
}

/// `GET /health`: always `200 OK`, whatever the configuration.
pub fn health_handler() -> (r: Response)
    ensures
        r.status == 200,
        r.body@ == "OK"@,
{
    Response { status: 200, body: String::from_str("OK") }
}

pub open spec fn digit_char(d: nat) -> char {
    if d == 0 {
        '0'
    } else if d == 1 {
        '1'
    } else if d == 2 {
        '2'
    } else if d == 3 {
        '3'
    } else if d == 4 {
        '4'
    } else if d == 5 {
        '5'
    } else if d == 6 {
        '6'
    } else if d == 7 {
        '7'
    } else if d == 8 {
        '8'
    } else {
        '9'
    }
}

/// `n` written in decimal, without leading zeros.
pub open spec fn decimal(n: nat) -> Seq<char>
    decreases n,
{
    if n < 10 {
        seq![digit_char(n)]
    } else {
        decimal(n / 10) + seq![digit_char(n % 10)]
    }
}

fn digit_str(d: u16) -> (r: &'static str)
    requires
        d < 10,
    ensures
        r@ == seq![digit_char(d as nat)],
{
    proof {
        reveal_strlit("0");
        reveal_strlit("1");
        reveal_strlit("2");
        reveal_strlit("3");
        reveal_strlit("4");
        reveal_strlit("5");
        reveal_strlit("6");
        reveal_strlit("7");
        reveal_strlit("8");
        reveal_strlit("9");
    }
    let r = if d == 0 {
        "0"
    } else if d == 1 {
        "1"
    } else if d == 2 {
        "2"
    } else if d == 3 {
        "3"
    } else if d == 4 {
        "4"
    } else if d == 5 {
        "5"
    } else if d == 6 {
        "6"
    } else if d == 7 {
        "7"
    } else if d == 8 {
        "8"
    } else {
        "9"
    };
    assert(r@ =~= seq![digit_char(d as nat)]);
    r
}

fn decimal_text(n: u16) -> (r: String)
    ensures
        r@ == decimal(n as nat),
    decreases n,
{
    if n < 10 {
        String::from_str(digit_str(n))
    } else {
        decimal_text(n / 10).concat(digit_str(n % 10))
    }
}

/// The address the service listens on: every interface, at `port`.
pub fn listen_address(port: u16) -> (r: String)
    ensures
        r@ == "0.0.0.0:"@ + decimal(port as nat),
{
    String::from_str("0.0.0.0:").concat(decimal_text(port).as_str())
}

} // verus!
