//! The redirect target to the external ranking site: given a username and
//! the configured site identifier, builds
//! `<ranking-site-base>?site=<siteId>&postback=<username>`. The username is
//! passed through unvalidated, as the callback contract asks.

use vstd::prelude::*;
use vstd::string::StringExecFns;

verus! {

/// The decimal digit character for `d`.
pub open spec fn digit_char(d: nat) -> char {
    if d == 0 {
        '0'
    } else if d == 1 {
        '1'
    } else if d == 2 {
        '2'
    } else if d == 3 {
        '3'
    } else if d == 4 {
        '4'
    } else if d == 5 {
        '5'
    } else if d == 6 {
        '6'
    } else if d == 7 {
        '7'
    } else if d == 8 {
        '8'
    } else {
        '9'
    }
}

/// The decimal rendering of `n`, most significant digit first, without
/// leading zeros (a single zero for zero itself).
pub open spec fn dec_seq(n: nat) -> Seq<char>
    decreases n,
{
    if n < 10 {
        seq![digit_char(n)]
    } else {
        dec_seq(n / 10).push(digit_char(n % 10))
    }
}

/// The one-character string for the decimal digit `d`.
fn digit_str(d: u8) -> (r: &'static str)
    requires
        d < 10,
    ensures
        r@ == seq![digit_char(d as nat)],
{
    let r: &'static str = match d {
        0 => "0",
        1 => "1",
        2 => "2",
        3 => "3",
        4 => "4",
        5 => "5",
        6 => "6",
        7 => "7",
        8 => "8",
        _ => "9",
    };
    proof {
        reveal_strlit("0");
        reveal_strlit("1");
        reveal_strlit("2");
        reveal_strlit("3");
        reveal_strlit("4");
        reveal_strlit("5");
        reveal_strlit("6");
        reveal_strlit("7");
        reveal_strlit("8");
        reveal_strlit("9");
        assert(r@ =~= seq![digit_char(d as nat)]);
    }
    r
}

/// Renders `n` in decimal.
pub fn u32_to_dec(n: u32) -> (s: String)
    ensures
        s@ == dec_seq(n as nat),
    decreases n,
{
    if n < 10 {
        digit_str(n as u8).to_owned()
    } else {
        let mut s = u32_to_dec(n / 10);
        s.append(digit_str((n % 10) as u8));
        proof {
            assert(dec_seq(n as nat) =~= dec_seq((n / 10) as nat) + seq![
                digit_char((n % 10) as nat),
            ]);
        }
        s
    }
}

/// The redirect target for `username` at the site registered as `site_id`.
pub fn redirect_url(site_id: u32, username: &str) -> (r: String)
    ensures
        r@ == "http://www.xtremetop100.com/in.php?site="@ + dec_seq(site_id as nat)
            + "&postback="@ + username@,
{
    let mut s = "http://www.xtremetop100.com/in.php?site=".to_owned();
    s.append(u32_to_dec(site_id).as_str());
    s.append("&postback=");
    s.append(username);
    s
}

} // verus!
