//! Numbers and addresses in words.
use vstd::prelude::*;
use vstd::string::StringExecFns;
use crate::clock::{all_digits, digits_count_in_tens, digits_value};
use crate::net::{Ipv4Addr, SocketAddrV4};

verus! {

/// The digit for a number below ten.
pub open spec fn digit(n: nat) -> Seq<char> {
    if n == 0 {
        "0"@
    } else if n == 1 {
        "1"@
    } else if n == 2 {
        "2"@
    } else if n == 3 {
        "3"@
    } else if n == 4 {
        "4"@
    } else if n == 5 {
        "5"@
    } else if n == 6 {
        "6"@
    } else if n == 7 {
        "7"@
    } else if n == 8 {
        "8"@
    } else {
        "9"@
    }
}

/// A number in decimal digits, without leading zeros.
pub open spec fn decimal(n: nat) -> Seq<char>
    decreases n,
{
    if n < 10 {
        digit(n)
    } else {
        decimal(n / 10) + digit(n % 10)
    }
}

fn digit_text(n: u32) -> (r: &'static str)
    requires
        n < 10,
    ensures
        r@ == digit(n as nat),
{
    match n {
        0 => "0",
        1 => "1",
        2 => "2",
        3 => "3",
        4 => "4",
        5 => "5",
        6 => "6",
        7 => "7",
        8 => "8",
        _ => "9",
    }
}

/// A number in decimal digits.
pub fn decimal_text(n: u32) -> (r: String)
    ensures
        r@ == decimal(n as nat),
    decreases n,
{
    if n < 10 {
        digit_text(n).to_owned()
    } else {
        decimal_text(n / 10).concat(digit_text(n % 10))
    }
}

impl Ipv4Addr {
    /// The four octets with dots between them.
    pub open spec fn text(self) -> Seq<char> {
        decimal(self.a as nat) + "."@ + decimal(self.b as nat) + "."@ + decimal(self.c as nat)
            + "."@ + decimal(self.d as nat)
    }
}

impl SocketAddrV4 {
    /// The address and the port, with a colon between them.
    pub open spec fn text(self) -> Seq<char> {
        self.ip.text() + ":"@ + decimal(self.port as nat)
    }

    /// The address and the port in words.
    pub fn message(&self) -> (r: String)
        ensures
            r@ == self.text(),
    {
        decimal_text(self.ip.a as u32).concat(".").concat(
            decimal_text(self.ip.b as u32).as_str(),
        ).concat(".").concat(decimal_text(self.ip.c as u32).as_str()).concat(".").concat(
            decimal_text(self.ip.d as u32).as_str(),
        ).concat(":").concat(decimal_text(self.port as u32).as_str())
    }
}

/// A number in words is a row of digits that stands for it, without a zero at its start unless it is
/// zero.
pub proof fn words_stand_for_the_number(n: nat)
    ensures
        all_digits(decimal(n)),
        digits_value(decimal(n)) == n,
        decimal(n).len() > 0,
        decimal(n)[0] == '0' ==> n == 0,
    decreases n,
{
    let d = digit(n % 10);
    one_digit_stands_for_itself(n % 10);
    if n >= 10 {
        words_stand_for_the_number(n / 10);
        digits_count_in_tens(decimal(n / 10), d[0]);
        assert(decimal(n) =~= decimal(n / 10).push(d[0]));
    } else {
        digits_count_in_tens(Seq::empty(), d[0]);
        assert(decimal(n) =~= Seq::<char>::empty().push(d[0]));
        assert(all_digits(Seq::<char>::empty()));
    }
}

proof fn one_digit_stands_for_itself(n: nat)
    requires
        n < 10,
    ensures
        digit(n).len() == 1,
        digit(n)[0] as int == 48 + n,
{
    reveal_strlit("0");
    reveal_strlit("1");
    reveal_strlit("2");
    reveal_strlit("3");
    reveal_strlit("4");
    reveal_strlit("5");
    reveal_strlit("6");
    reveal_strlit("7");
    reveal_strlit("8");
    reveal_strlit("9");
}

/// Numbers and addresses are put into words as such: the octets with dots between them, and the port
/// after a colon.
pub proof fn addresses_are_put_into_words(n: u32, r: String, addr: SocketAddrV4, t: String)
    requires
        call_ensures(decimal_text, (n,), r),
        call_ensures(SocketAddrV4::message, (&addr,), t),
    ensures
        r@ == decimal(n as nat),
        t@ == decimal(addr.ip.a as nat) + "."@ + decimal(addr.ip.b as nat) + "."@ + decimal(
            addr.ip.c as nat,
        ) + "."@ + decimal(addr.ip.d as nat) + ":"@ + decimal(addr.port as nat),
{
}

} // verus!
