//! The server value and what it computes before it listens.
use vstd::prelude::*;
use crate::config::Config;
use crate::error::AppError;

verus! {

/// The HTTP gateway: holds its own copy of the configuration snapshot.
pub struct Server {
    pub config: Config,
}

/// Decimal digits of `n`, most significant first, without leading zeros.
pub open spec fn decimal(n: nat) -> Seq<char>
    decreases n,
{
    if n < 10 {
        seq![digit_char(n)]
    } else {
        decimal(n / 10) + seq![digit_char(n % 10)]
    }
}

pub open spec fn digit_char(d: nat) -> char {
    if d == 0 { '0' }
    else if d == 1 { '1' }
    else if d == 2 { '2' }
    else if d == 3 { '3' }
    else if d == 4 { '4' }
    else if d == 5 { '5' }
    else if d == 6 { '6' }
    else if d == 7 { '7' }
    else if d == 8 { '8' }
    else { '9' }
}

fn digit_str(d: u64) -> (r: &'static str)
    requires
        d < 10,
    ensures
        r@ == seq![digit_char(d as nat)],
{
    if d == 0 {
        proof { reveal_strlit("0"); }
        "0"
    } else if d == 1 {
        proof { reveal_strlit("1"); }
        "1"
    } else if d == 2 {
        proof { reveal_strlit("2"); }
        "2"
    } else if d == 3 {
        proof { reveal_strlit("3"); }
        "3"
    } else if d == 4 {
        proof { reveal_strlit("4"); }
        "4"
    } else if d == 5 {
        proof { reveal_strlit("5"); }
        "5"
    } else if d == 6 {
        proof { reveal_strlit("6"); }
        "6"
    } else if d == 7 {
        proof { reveal_strlit("7"); }
        "7"
    } else if d == 8 {
        proof { reveal_strlit("8"); }
        "8"
    } else {
        proof { reveal_strlit("9"); }
        "9"
    }
}

/// Writes `n` in decimal.
pub fn decimal_string(n: u64) -> (r: String)
    ensures
        r@ == decimal(n as nat),
    decreases n,
{
    if n < 10 {
        String::from_str(digit_str(n))
    } else {
        let mut s = decimal_string(n / 10);
        s.append(digit_str(n % 10));
        s
    }
}

/// The text the listener address is parsed from: host, a colon, the port.
pub open spec fn bind_address_spec(config: Config) -> Seq<char> {
    config.server.bind@ + seq![':'] + decimal(config.server.port as nat)
}

impl Server {
    /// A server over a copy of the given configuration; this never fails.
    pub fn new(config: &Config) -> (r: Result<Server, AppError>)
        ensures
            r is Ok,
            r->Ok_0.config == *config,
    {
        Ok(Server { config: config.clone() })
    }

    /// The address to listen on, written `bind:port`.
    pub fn bind_address(&self) -> (r: String)
        ensures
            r@ == bind_address_spec(self.config),
    {
        let mut s = self.config.server.bind.clone();
        proof { reveal_strlit(":"); }
        s.append(":");
        let port = decimal_string(self.config.server.port as u64);
        s.append(port.as_str());
        s
    }
}

/// Liveness answer: always `OK`, whatever the state of the backend.
pub fn health_check() -> (r: &'static str)
    ensures
        r@ == seq!['O', 'K'],
{
    proof { reveal_strlit("OK"); }
    "OK"
}

} // verus!
