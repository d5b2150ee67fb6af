//! The database settings: the values of the environment, or their defaults.

use vstd::prelude::*;

verus! {

/// Why a port number could not be read; the kinds that std's integer parsing
/// reports for an unsigned 16-bit number.
#[derive(Clone, Copy, Debug, PartialEq, Eq, Structural)]
pub enum PortError {
    /// The text is empty.
    Empty,
    /// A character that is not a decimal digit, or a sign with no digits.
    InvalidDigit,
    /// The number is above 65535.
    PosOverflow,
}

/// The decimal digits `0` to `9`.
pub open spec fn is_digit(c: char) -> bool {
    '0' <= c && c <= '9'
}

/// The value of a decimal digit.
pub open spec fn digit_value(c: char) -> int {
    (c as int) - 48
}

/// Reads the digits of `s` from index `i` on, `acc` being the value of those
/// before: the first character that is not a digit is an invalid digit, the
/// first digit that takes the value above 65535 an overflow.
pub open spec fn scan_digits(s: Seq<char>, i: int, acc: int) -> Result<u16, PortError>
    decreases s.len() - i,
{
    if i >= s.len() {
        Ok(acc as u16)
    } else if !is_digit(s[i]) {
        Err(PortError::InvalidDigit)
    } else if acc * 10 + digit_value(s[i]) > 65535 {
        Err(PortError::PosOverflow)
    } else {
        scan_digits(s, i + 1, acc * 10 + digit_value(s[i]))
    }
}

/// The port number that `s` writes: an optional `+` followed by decimal digits.
pub open spec fn port_number(s: Seq<char>) -> Result<u16, PortError> {
    if s.len() == 0 {
        Err(PortError::Empty)
    } else if s[0] == '+' {
        if s.len() == 1 {
            Err(PortError::InvalidDigit)
        } else {
            scan_digits(s, 1, 0)
        }
    } else {
        scan_digits(s, 0, 0)
    }
}

/// Reads a port number as `u16::from_str` does: an optional `+` and then
/// decimal digits only, with no white space.
pub fn parse_port(s: &str) -> (r: Result<u16, PortError>)
    ensures
        r == port_number(s@),
{
    let n = s.unicode_len();
    if n == 0 {
        return Err(PortError::Empty);
    }
    let mut i: usize = 0;
    if s.get_char(0) == '+' {
        if n == 1 {
            return Err(PortError::InvalidDigit);
        }
        i = 1;
    }
    let start: usize = i;
    let mut acc: u32 = 0;
    while i < n
        invariant
            n == s@.len(),
            start <= i <= n,
            acc <= 65535,
            port_number(s@) == scan_digits(s@, start as int, 0),
            scan_digits(s@, start as int, 0) == scan_digits(s@, i as int, acc as int),
        decreases n - i,
    {
        let c = s.get_char(i);
        if !('0' <= c && c <= '9') {
            return Err(PortError::InvalidDigit);
        }
        let d: u32 = (c as u32) - 48;
        let next: u32 = acc * 10 + d;
        if next > 65535 {
            return Err(PortError::PosOverflow);
        }
        acc = next;
        i = i + 1;
    }
    Ok(acc as u16)
}

impl PortError {
    /// The text std writes for this kind of integer parsing error.
    pub fn message(&self) -> (m: String)
        ensures
            m@ == port_error_text(*self),
    {
        match self {
            PortError::Empty => String::from_str("cannot parse integer from empty string"),
            PortError::InvalidDigit => String::from_str("invalid digit found in string"),
            PortError::PosOverflow => String::from_str("number too large to fit in target type"),
        }
    }
}

/// The text of an integer parsing error.
pub open spec fn port_error_text(e: PortError) -> Seq<char> {
    match e {
        PortError::Empty => "cannot parse integer from empty string"@,
        PortError::InvalidDigit => "invalid digit found in string"@,
        PortError::PosOverflow => "number too large to fit in target type"@,
    }
}

/// The line printed before the process ends when the port cannot be read.
pub fn port_error_report(e: PortError) -> (m: String)
    ensures
        m@ == "Failed to read DB port number from an environment variable MYSQL_PORT.\nError: "@
            + port_error_text(e),
{
    let mut m = String::from_str("Failed to read DB port number from an environment variable MYSQL_PORT.\nError: ");
    let text = e.message();
    m.append(text.as_str());
    m
}

/// The decimal writing of `n`: its digits, most significant first, with no
/// leading zero (`0` is written `0`).
pub open spec fn decimal_text(n: nat) -> Seq<char>
    decreases n,
{
    if n < 10 {
        seq![(48 + n) as char]
    } else {
        decimal_text(n / 10).push((48 + n % 10) as char)
    }
}

proof fn lemma_scan_push(s: Seq<char>, c: char, i: int, acc: int)
    requires
        0 <= i <= s.len(),
        0 <= acc <= 65535,
    ensures
        scan_digits(s.push(c), i, acc) == match scan_digits(s, i, acc) {
            Ok(v) => if !is_digit(c) {
                Err(PortError::InvalidDigit)
            } else if v * 10 + digit_value(c) > 65535 {
                Err(PortError::PosOverflow)
            } else {
                Ok((v * 10 + digit_value(c)) as u16)
            },
            Err(e) => Err(e),
        },
    decreases s.len() - i,
{
    let t = s.push(c);
    if i == s.len() {
        assert(t[i] == c);
        if is_digit(c) && acc * 10 + digit_value(c) <= 65535 {
            assert(scan_digits(t, i + 1, acc * 10 + digit_value(c)) == Ok::<u16, PortError>(
                (acc * 10 + digit_value(c)) as u16,
            ));
        }
    } else {
        assert(t[i] == s[i]);
        if is_digit(s[i]) && acc * 10 + digit_value(s[i]) <= 65535 {
            lemma_scan_push(s, c, i + 1, acc * 10 + digit_value(s[i]));
        }
    }
}

proof fn lemma_decimal_scan(n: nat)
    requires
        n <= 65535,
    ensures
        decimal_text(n).len() > 0,
        decimal_text(n)[0] != '+',
        scan_digits(decimal_text(n), 0, 0) == Ok::<u16, PortError>(n as u16),
    decreases n,
{
    let c = (48 + n % 10) as char;
    assert(c as int == 48 + n % 10);
    if n < 10 {
        let t = decimal_text(n);
        assert(t[0] == c);
        assert(scan_digits(t, 1, n as int) == Ok::<u16, PortError>(n as u16));
    } else {
        lemma_decimal_scan(n / 10);
        let s = decimal_text(n / 10);
        lemma_scan_push(s, c, 0, 0);
        assert(decimal_text(n)[0] == s[0]);
    }
}

/// Every port number written in decimal reads back as that number: each digit
/// `d` counts `d` (its code less that of `0`), most significant first.
pub proof fn law_port_decimal_reads_back(n: nat)
    requires
        n <= 65535,
    ensures
        port_number(decimal_text(n)) == Ok::<u16, PortError>(n as u16),
{
    lemma_decimal_scan(n);
}

/// The number that a string of decimal digits writes, most significant first.
pub open spec fn digits_number(s: Seq<char>) -> int
    decreases s.len(),
{
    if s.len() == 0 {
        0
    } else {
        digits_number(s.drop_last()) * 10 + ((s.last() as int) - 48)
    }
}

/// Every character of `s` is one of `0` to `9`.
pub open spec fn all_digits(s: Seq<char>) -> bool {
    forall|i: int| 0 <= i < s.len() ==> '0' <= #[trigger] s[i] && s[i] <= '9'
}

proof fn lemma_digits_scan(s: Seq<char>)
    requires
        s.len() > 0,
        all_digits(s),
    ensures
        scan_digits(s, 0, 0) == if digits_number(s) <= 65535 {
            Ok::<u16, PortError>(digits_number(s) as u16)
        } else {
            Err(PortError::PosOverflow)
        },
        digits_number(s) >= 0,
    decreases s.len(),
{
    let c = s.last();
    let init = s.drop_last();
    assert(s == init.push(c));
    assert('0' <= c && c <= '9');
    if init.len() == 0 {
        assert(digits_number(init) == 0);
        assert(s[0] == c);
        if digits_number(s) <= 65535 {
            assert(scan_digits(s, 1, digits_number(s)) == Ok::<u16, PortError>(digits_number(s) as u16));
        }
    } else {
        assert(all_digits(init)) by {
            assert forall|i: int| 0 <= i < init.len() implies '0' <= #[trigger] init[i] && init[i] <= '9' by {
                assert(init[i] == s[i]);
            }
        }
        lemma_digits_scan(init);
        lemma_scan_push(init, c, 0, 0);
    }
}

/// A string of decimal digits reads as the number it writes, leading zeros
/// and all, when that number is at most 65535, and as an overflow otherwise.
pub proof fn law_port_digits_read_as_number(s: Seq<char>)
    requires
        s.len() > 0,
        all_digits(s),
    ensures
        port_number(s) == if digits_number(s) <= 65535 {
            Ok::<u16, PortError>(digits_number(s) as u16)
        } else {
            Err(PortError::PosOverflow)
        },
{
    lemma_digits_scan(s);
    assert('0' <= s[0]);
}

proof fn lemma_non_digit_scan(s: Seq<char>, k: int)
    requires
        0 <= k < s.len(),
        !('0' <= s[k] && s[k] <= '9'),
    ensures
        scan_digits(s, 0, 0) is Err,
    decreases s.len(),
{
    let c = s.last();
    let init = s.drop_last();
    assert(s == init.push(c));
    lemma_scan_push(init, c, 0, 0);
    if k < init.len() {
        assert(init[k] == s[k]);
        lemma_non_digit_scan(init, k);
    }
}

/// A character that is not a decimal digit, anywhere but as the one leading
/// `+`, makes the text no port number.
pub proof fn law_port_non_digit_rejected(s: Seq<char>, k: int)
    requires
        0 <= k < s.len(),
        !('0' <= s[k] && s[k] <= '9'),
        !(k == 0 && s[k] == '+'),
    ensures
        port_number(s) is Err,
{
    if s[0] == '+' && s.len() > 1 {
        let t = s.drop_first();
        assert(t[k - 1] == s[k]);
        lemma_non_digit_scan(t, k - 1);
        lemma_scan_shift(s, 1, 0);
    } else if s[0] != '+' {
        lemma_non_digit_scan(s, k);
    }
}

proof fn lemma_scan_shift(s: Seq<char>, i: int, acc: int)
    requires
        1 <= i <= s.len(),
    ensures
        scan_digits(s, i, acc) == scan_digits(s.drop_first(), i - 1, acc),
    decreases s.len() - i,
{
    if i < s.len() {
        assert(s.drop_first()[i - 1] == s[i]);
        if is_digit(s[i]) && acc * 10 + digit_value(s[i]) <= 65535 {
            lemma_scan_shift(s, i + 1, acc * 10 + digit_value(s[i]));
        }
    }
}

/// A setting that is given is used as given; the default stands only for one
/// that is not set.
pub proof fn law_given_setting_used_verbatim(v: String, default: Seq<char>)
    ensures
        setting_or(Some(v), default) == v@,
        setting_or(None, default) == default,
{
}

proof fn lemma_default_port()
    ensures
        port_number("3306"@) == Ok::<u16, PortError>(3306),
{
    reveal_strlit("3306");
    reveal_with_fuel(decimal_text, 5);
    assert(decimal_text(3306) =~= "3306"@);
    law_port_decimal_reads_back(3306);
}

/// How to reach the database.
#[derive(Debug)]
pub struct DbSettings {
    pub host: String,
    pub port: u16,
    pub user: String,
    pub password: String,
    pub db_name: String,
    /// Statements run on each new connection.
    pub init: Vec<String>,
}

/// The value of a setting, or its default where it is not set.
pub open spec fn setting_or(v: Option<String>, default: Seq<char>) -> Seq<char> {
    match v {
        Some(s) => s@,
        None => default,
    }
}

/// The value of a setting, or `default` where it is not set.
fn setting(v: Option<String>, default: &str) -> (s: String)
    ensures
        s@ == setting_or(v, default@),
{
    match v {
        Some(s) => s,
        None => String::from_str(default),
    }
}

/// The statements run on each new connection.
pub open spec fn init_statements() -> Seq<Seq<char>> {
    seq!["charset=utf8mb4"@, "parseTime=true"@, "loc=Local"@]
}

/// The database settings from the values of `MYSQL_HOST`, `MYSQL_PORT`,
/// `MYSQL_USER` and `MYSQL_PASS` (`None` where one is not set): host
/// `localhost`, port `3306`, user `root` and an empty password by default,
/// always the database `isuketch`. Fails exactly when the port cannot be read.
pub fn db_settings(
    host: Option<String>,
    port: Option<String>,
    user: Option<String>,
    password: Option<String>,
) -> (r: Result<DbSettings, PortError>)
    ensures
        match port_number(setting_or(port, "3306"@)) {
            Ok(p) => r matches Ok(c) && {
                &&& c.host@ == setting_or(host, "localhost"@)
                &&& c.port == p
                &&& c.user@ == setting_or(user, "root"@)
                &&& c.password@ == setting_or(password, ""@)
                &&& c.db_name@ == "isuketch"@
                &&& c.init@.map_values(|s: String| s@) == init_statements()
            },
            Err(e) => r == Err::<DbSettings, PortError>(e),
        },
        r matches Ok(c) ==> {
            &&& match host {
                Some(h) => c.host@ == h@,
                None => c.host@ == "localhost"@,
            }
            &&& match user {
                Some(u) => c.user@ == u@,
                None => c.user@ == "root"@,
            }
            &&& match password {
                Some(w) => c.password@ == w@,
                None => c.password@ == ""@,
            }
        },
        match port {
            Some(p) => (r is Ok <==> port_number(p@) is Ok) && (r matches Ok(c) ==> port_number(p@)
                == Ok::<u16, PortError>(c.port)),
            None => r matches Ok(c) && c.port == 3306,
        },
{
    proof {
        lemma_default_port();
    }
    let host = setting(host, "localhost");
    let port_text = setting(port, "3306");
    let port = match parse_port(port_text.as_str()) {
        Ok(p) => p,
        Err(e) => return Err(e),
    };
    let user = setting(user, "root");
    let password = setting(password, "");
    let mut init: Vec<String> = Vec::new();
    init.push(String::from_str("charset=utf8mb4"));
    init.push(String::from_str("parseTime=true"));
    init.push(String::from_str("loc=Local"));
    assert(init@.map_values(|s: String| s@) =~= init_statements());
    Ok(DbSettings { host, port, user, password, db_name: String::from_str("isuketch"), init })
}

} // verus!
