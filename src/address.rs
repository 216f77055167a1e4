use vstd::prelude::*;
use vstd::string::StringExecFns;

verus! {

/// The character of a decimal digit.
pub open spec fn digit_char(d: nat) -> char {
    if d == 0 { '0' }
    else if d == 1 { '1' }
    else if d == 2 { '2' }
    else if d == 3 { '3' }
    else if d == 4 { '4' }
    else if d == 5 { '5' }
    else if d == 6 { '6' }
    else if d == 7 { '7' }
    else if d == 8 { '8' }
    else { '9' }
}

/// The decimal text of a number, without leading zeros.
pub open spec fn dec_text(n: nat) -> Seq<char>
    decreases n,
{
    if n < 10 {
        seq![digit_char(n)]
    } else {
        dec_text(n / 10) + seq![digit_char(n % 10)]
    }
}

fn digit_string(d: u16) -> (s: String)
    requires
        d < 10,
    ensures
        s@ == seq![digit_char(d as nat)],
{
    proof {
        reveal_strlit("0"); reveal_strlit("1"); reveal_strlit("2"); reveal_strlit("3");
        reveal_strlit("4"); reveal_strlit("5"); reveal_strlit("6"); reveal_strlit("7");
        reveal_strlit("8"); reveal_strlit("9");
    }
    let s = if d == 0 { "0" }
        else if d == 1 { "1" }
        else if d == 2 { "2" }
        else if d == 3 { "3" }
        else if d == 4 { "4" }
        else if d == 5 { "5" }
        else if d == 6 { "6" }
        else if d == 7 { "7" }
        else if d == 8 { "8" }
        else { "9" };
    String::from_str(s)
}

/// Writes a number in decimal.
pub fn decimal(n: u16) -> (s: String)
    ensures
        s@ == dec_text(n as nat),
    decreases n,
{
    if n < 10 {
        digit_string(n)
    } else {
        let head = decimal(n / 10);
        let last = digit_string(n % 10);
        head.concat(last.as_str())
    }
}

/// A network address to bind a server to: an IP address in its textual form and a port.
#[derive(Clone, Debug)]
pub struct SocketAddress {
    /// the IP address as text, without brackets
    pub ip: String,
    /// whether `ip` is an IPv6 address
    pub ipv6: bool,
    pub port: u16,
}

impl SocketAddress {
    /// The address as text: `ip:port`, with the IP in brackets for IPv6.
    pub open spec fn text(self) -> Seq<char> {
        (if self.ipv6 { "["@ + self.ip@ + "]"@ } else { self.ip@ }) + ":"@ + dec_text(self.port as nat)
    }

    pub fn new(ip: &str, ipv6: bool, port: u16) -> (a: SocketAddress)
        ensures
            a.ip@ == ip@,
            a.ipv6 == ipv6,
            a.port == port,
    {
        SocketAddress { ip: String::from_str(ip), ipv6, port }
    }

    /// The local loopback address at `port`.
    pub fn localhost(port: u16) -> (a: SocketAddress)
        ensures
            a.ip@ == "127.0.0.1"@,
            !a.ipv6,
            a.port == port,
    {
        SocketAddress { ip: String::from_str("127.0.0.1"), ipv6: false, port }
    }

    /// The IP address as text, as a server takes it for its host.
    pub fn ip_text(&self) -> (s: String)
        ensures
            s@ == self.ip@,
    {
        self.ip.clone()
    }

    /// The port in decimal.
    pub fn port_text(&self) -> (s: String)
        ensures
            s@ == dec_text(self.port as nat),
    {
        decimal(self.port)
    }

    /// The address as text.
    pub fn to_text(&self) -> (s: String)
        ensures
            s@ == self.text(),
    {
        let host = if self.ipv6 {
            String::from_str("[").concat(self.ip.as_str()).concat("]")
        } else {
            self.ip.clone()
        };
        host.concat(":").concat(self.port_text().as_str())
    }
}

} // verus!
