//! What the application decides at start: which capabilities its host
//! registers, in which order, and where the main window is pointed.

use vstd::prelude::*;

verus! {

/// The loopback port on which the local page is served.
pub const LOCAL_PORT: u16 = 61234;

/// The label of the window that shows the local page.
pub const MAIN_WINDOW: &'static str = "main";

/// The address of the local page, up to the port.
pub const LOCAL_URL_BASE: &'static str = "http://localhost:";

/// One capability that the host registers before it serves its page.
#[derive(Clone, Copy, Debug, PartialEq, Eq)]
pub enum Capability {
    /// Running commands of the system's shell.
    Shell,
    /// Serving the local page on a loopback port.
    LocalServer,
    /// Outbound HTTP requests.
    Http,
    /// Opening an address or a file with the system's own program for it.
    Opener,
    /// Showing the system's dialogs.
    Dialog,
}

/// The capabilities in the order in which the host registers them: each of
/// them once.
pub open spec fn capability_order() -> Seq<Capability> {
    seq![
        Capability::Shell,
        Capability::LocalServer,
        Capability::Http,
        Capability::Opener,
        Capability::Dialog,
    ]
}

/// The character that writes the digit `d`, for `d` below ten.
pub open spec fn digit_char(d: nat) -> char
    recommends
        d < 10,
{
    seq!['0', '1', '2', '3', '4', '5', '6', '7', '8', '9'][d as int]
}

/// `n` written in decimal: no sign, no leading zero, a single `0` for zero.
pub open spec fn decimal(n: nat) -> Seq<char>
    decreases n,
{
    if n < 10 {
        seq![digit_char(n)]
    } else {
        decimal(n / 10).push(digit_char(n % 10))
    }
}

/// The address of the local page that is served on `port`.
pub open spec fn local_url(port: u16) -> Seq<char> {
    LOCAL_URL_BASE@ + decimal(port as nat)
}

/// The digit that `c` writes, for `c` from `0` to `9`.
pub open spec fn digit_value(c: char) -> nat
    recommends
        '0' <= c <= '9',
{
    (c as u32 - '0' as u32) as nat
}

/// The number that the decimal digits `digits` write, read from the left.
pub open spec fn decimal_value(digits: Seq<char>) -> nat
    decreases digits.len(),
{
    if digits.len() == 0 {
        0
    } else {
        10 * decimal_value(digits.drop_last()) + digit_value(digits.last())
    }
}

/// The text of one decimal digit.
fn digit_text(d: u16) -> (text: &'static str)
    requires
        d < 10,
    ensures
        text@ == seq![digit_char(d as nat)],
{
    proof {
        reveal_strlit("0");
        reveal_strlit("1");
        reveal_strlit("2");
        reveal_strlit("3");
        reveal_strlit("4");
        reveal_strlit("5");
        reveal_strlit("6");
        reveal_strlit("7");
        reveal_strlit("8");
        reveal_strlit("9");
    }
    match d {
        0 => "0",
        1 => "1",
        2 => "2",
        3 => "3",
        4 => "4",
        5 => "5",
        6 => "6",
        7 => "7",
        8 => "8",
        _ => "9",
    }
}

/// Writes `n` in decimal at the end of `out`.
fn append_decimal(out: &mut String, n: u16)
    ensures
        final(out)@ == old(out)@ + decimal(n as nat),
    decreases n,
{
    if n >= 10 {
        append_decimal(out, n / 10);
    }
    out.append(digit_text(n % 10));
}

/// The address of the local page that is served on `port`, as text.
pub fn local_page_url(port: u16) -> (url: String)
    ensures
        url@ == local_url(port),
{
    let mut url = String::from_str(LOCAL_URL_BASE);
    append_decimal(&mut url, port);
    url
}

/// The capabilities that the host registers at start, in their order.
pub fn capabilities() -> (order: Vec<Capability>)
    ensures
        order@ == capability_order(),
{
    vec![
        Capability::Shell,
        Capability::LocalServer,
        Capability::Http,
        Capability::Opener,
        Capability::Dialog,
    ]
}

/// Where the main window is pointed at start: at the local page that is served
/// on `port` where the platform lets the application steer its window, nowhere
/// where it does not.
pub fn navigation_target(port: u16, supports_window_navigation: bool) -> (target: Option<String>)
    ensures
        target is Some <==> supports_window_navigation,
        target matches Some(url) ==> url@ == local_url(port),
{
    if supports_window_navigation {
        Some(local_page_url(port))
    } else {
        None
    }
}

/// Each digit's character writes that digit, and only zero is written `0`.
proof fn lemma_digit_denotes(d: nat)
    requires
        d < 10,
    ensures
        digit_value(digit_char(d)) == d,
        digit_char(d) == '0' <==> d == 0,
{
}

/// The decimal text of a number writes that number back, and it is as short
/// as can be: it has a digit, and no zero in front of another digit.
pub proof fn lemma_decimal_denotes(n: nat)
    ensures
        decimal_value(decimal(n)) == n,
        decimal(n).len() >= 1,
        decimal(n).len() == 1 <==> n < 10,
        decimal(n).len() > 1 ==> decimal(n)[0] != '0',
    decreases n,
{
    let text = decimal(n);
    lemma_digit_denotes(n % 10);
    if n >= 10 {
        lemma_decimal_denotes(n / 10);
        if n / 10 < 10 {
            lemma_digit_denotes(n / 10);
        }
        assert(text.drop_last() == decimal(n / 10));
    } else {
        assert(decimal_value(text.drop_last()) == 0);
    }
}

/// Pages served on different ports have different addresses.
pub proof fn lemma_local_url_tells_ports_apart(first: u16, second: u16)
    ensures
        local_url(first) == local_url(second) <==> first == second,
{
    let base = LOCAL_URL_BASE@;
    lemma_decimal_denotes(first as nat);
    lemma_decimal_denotes(second as nat);
    assert(local_url(first).subrange(base.len() as int, local_url(first).len() as int)
        == decimal(first as nat));
    assert(local_url(second).subrange(base.len() as int, local_url(second).len() as int)
        == decimal(second as nat));
}

} // verus!
