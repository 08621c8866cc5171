//! Where the redirect lands: the loopback address the listener binds and the
//! URL the authorization server is asked to redirect to.

use vstd::prelude::*;
use vstd::string::StringExecFns;

verus! {

/// The port used when the configuration names none.
pub const DEFAULT_PORT: u16 = 8250;

/// The decimal digit for `d`, for `d` below ten.
pub open spec fn digit_char(d: nat) -> char {
    if d == 0 {
        '0'
    } else if d == 1 {
        '1'
    } else if d == 2 {
        '2'
    } else if d == 3 {
        '3'
    } else if d == 4 {
        '4'
    } else if d == 5 {
        '5'
    } else if d == 6 {
        '6'
    } else if d == 7 {
        '7'
    } else if d == 8 {
        '8'
    } else {
        '9'
    }
}

/// `n` written in base ten, most significant digit first, without leading
/// zeros.
pub open spec fn decimal_text(n: nat) -> Seq<char>
    decreases n,
{
    if n < 10 {
        seq![digit_char(n)]
    } else {
        decimal_text(n / 10).push(digit_char(n % 10))
    }
}

/// The host the listener binds: the loopback interface, by number.
pub open spec fn bind_host() -> Seq<char> {
    "127.0.0.1"@
}

/// The start of every URL handed to the authorization server. The host is
/// the name `localhost`, not the number the listener binds, because that is
/// the form authorization servers register.
pub open spec fn redirect_origin() -> Seq<char> {
    "http://localhost"@
}

/// The path of the redirect URL.
pub open spec fn redirect_path() -> Seq<char> {
    "/oidc/callback"@
}

/// `host:port`.
pub open spec fn with_port(host: Seq<char>, port: u16) -> Seq<char> {
    host + ":"@ + decimal_text(port as nat)
}

fn digit_str(d: u16) -> (s: &'static str)
    requires
        d < 10,
    ensures
        s@ == seq![digit_char(d as nat)],
{
    proof {
        reveal_strlit("0");
        reveal_strlit("1");
        reveal_strlit("2");
        reveal_strlit("3");
        reveal_strlit("4");
        reveal_strlit("5");
        reveal_strlit("6");
        reveal_strlit("7");
        reveal_strlit("8");
        reveal_strlit("9");
    }
    let s = if d == 0 {
        "0"
    } else if d == 1 {
        "1"
    } else if d == 2 {
        "2"
    } else if d == 3 {
        "3"
    } else if d == 4 {
        "4"
    } else if d == 5 {
        "5"
    } else if d == 6 {
        "6"
    } else if d == 7 {
        "7"
    } else if d == 8 {
        "8"
    } else {
        "9"
    };
    assert(s@ =~= seq![digit_char(d as nat)]);
    s
}

/// Renders a port number in base ten.
pub fn decimal(n: u16) -> (text: String)
    ensures
        text@ == decimal_text(n as nat),
    decreases n,
{
    if n < 10 {
        String::from_str(digit_str(n))
    } else {
        let mut text = decimal(n / 10);
        text.append(digit_str(n % 10));
        assert(text@ =~= decimal_text(n as nat));
        text
    }
}

/// The place a handshake's redirect is sent to. Scheme, host and path are
/// fixed; only the port varies.
#[derive(Clone, Copy, Debug, PartialEq, Eq, Structural)]
pub struct RedirectTarget {
    pub port: u16,
}

impl RedirectTarget {
    /// `127.0.0.1:port`.
    pub open spec fn spec_bind_address(self) -> Seq<char> {
        with_port(bind_host(), self.port)
    }

    /// `http://localhost:port`.
    pub open spec fn spec_base_url(self) -> Seq<char> {
        with_port(redirect_origin(), self.port)
    }

    /// `http://localhost:port/oidc/callback`.
    pub open spec fn spec_redirect_url(self) -> Seq<char> {
        self.spec_base_url() + redirect_path()
    }

    fn on_port(&self, host: &str) -> (text: String)
        ensures
            text@ == with_port(host@, self.port),
    {
        let mut text = String::from_str(host);
        text.append(":");
        let digits = decimal(self.port);
        text.append(digits.as_str());
        text
    }

    /// The socket address the listener binds.
    pub fn bind_address(&self) -> (address: String)
        ensures
            address@ == self.spec_bind_address(),
    {
        self.on_port("127.0.0.1")
    }

    /// The URL against which the listener resolves what a request asks for.
    pub fn base_url(&self) -> (url: String)
        ensures
            url@ == self.spec_base_url(),
    {
        self.on_port("http://localhost")
    }

    /// The URL the authorization server redirects the browser to.
    pub fn redirect_url(&self) -> (url: String)
        ensures
            url@ == self.spec_redirect_url(),
    {
        let mut url = self.base_url();
        url.append("/oidc/callback");
        url
    }
}

/// The value of a decimal digit.
pub open spec fn digit_value(digit: char) -> nat {
    if digit == '0' {
        0
    } else if digit == '1' {
        1
    } else if digit == '2' {
        2
    } else if digit == '3' {
        3
    } else if digit == '4' {
        4
    } else if digit == '5' {
        5
    } else if digit == '6' {
        6
    } else if digit == '7' {
        7
    } else if digit == '8' {
        8
    } else {
        9
    }
}

/// The number that a string of decimal digits writes.
pub open spec fn decimal_value(text: Seq<char>) -> nat
    decreases text.len(),
{
    if text.len() == 0 {
        0
    } else {
        decimal_value(text.drop_last()) * 10 + digit_value(text.last())
    }
}

/// A number's decimal text reads back as that number.
pub proof fn lemma_decimal_reads_back(n: nat)
    ensures
        decimal_value(decimal_text(n)) == n,
    decreases n,
{
    let text = decimal_text(n);
    if n < 10 {
        assert(text.drop_last().len() == 0);
        assert(text.last() == digit_char(n));
        assert(decimal_value(text.drop_last()) == 0);
    } else {
        lemma_decimal_reads_back(n / 10);
        assert(text.drop_last() =~= decimal_text(n / 10));
        assert(text.last() == digit_char(n % 10));
    }
}

proof fn lemma_same_prefix(prefix: Seq<char>, a: Seq<char>, b: Seq<char>)
    requires
        prefix + a == prefix + b,
    ensures
        a == b,
{
    assert(a =~= (prefix + a).subrange(prefix.len() as int, (prefix + a).len() as int));
    assert(b =~= (prefix + b).subrange(prefix.len() as int, (prefix + b).len() as int));
}

proof fn lemma_same_suffix(a: Seq<char>, b: Seq<char>, suffix: Seq<char>)
    requires
        a + suffix == b + suffix,
    ensures
        a == b,
{
    assert((a + suffix).len() == a.len() + suffix.len());
    assert((b + suffix).len() == b.len() + suffix.len());
    assert(a =~= (a + suffix).subrange(0, a.len() as int));
    assert(b =~= (b + suffix).subrange(0, b.len() as int));
}

/// Handshakes on different ports do not meet: they bind different
/// addresses and are redirected to different URLs.
pub proof fn lemma_ports_kept_apart(a: RedirectTarget, b: RedirectTarget)
    requires
        a.port != b.port,
    ensures
        a.spec_bind_address() != b.spec_bind_address(),
        a.spec_base_url() != b.spec_base_url(),
        a.spec_redirect_url() != b.spec_redirect_url(),
{
    lemma_decimal_reads_back(a.port as nat);
    lemma_decimal_reads_back(b.port as nat);
    let digits_a = decimal_text(a.port as nat);
    let digits_b = decimal_text(b.port as nat);
    assert(digits_a != digits_b);
    if a.spec_bind_address() == b.spec_bind_address() {
        lemma_same_prefix(bind_host() + ":"@, digits_a, digits_b);
    }
    if a.spec_base_url() == b.spec_base_url() {
        lemma_same_prefix(redirect_origin() + ":"@, digits_a, digits_b);
    }
    if a.spec_redirect_url() == b.spec_redirect_url() {
        lemma_same_suffix(a.spec_base_url(), b.spec_base_url(), redirect_path());
    }
}

} // verus!
