//! What the process tells the upstream registration service at startup: its
//! own ingestion address, and where to send that.

use vstd::prelude::*;

verus! {

/// Path under which the process takes inbound updates.
pub const UPDATE_PATH: &'static str = "tg_update";

/// The character of one decimal digit.
pub open spec fn digit(value: nat) -> char
    recommends
        value < 10,
{
    seq!['0', '1', '2', '3', '4', '5', '6', '7', '8', '9'][value as int]
}

/// `value` in decimal: most significant digit first, no sign, no leading
/// zero.
pub open spec fn decimal(value: nat) -> Seq<char>
    decreases value,
{
    if value < 10 {
        seq![digit(value)]
    } else {
        decimal(value / 10).push(digit(value % 10))
    }
}

/// The text of one decimal digit.
fn digit_text(value: u16) -> (text: &'static str)
    requires
        value < 10,
    ensures
        text@ == seq![digit(value as nat)],
{
    proof {
        reveal_strlit("0");
        reveal_strlit("1");
        reveal_strlit("2");
        reveal_strlit("3");
        reveal_strlit("4");
        reveal_strlit("5");
        reveal_strlit("6");
        reveal_strlit("7");
        reveal_strlit("8");
        reveal_strlit("9");
    }
    if value == 0 {
        "0"
    } else if value == 1 {
        "1"
    } else if value == 2 {
        "2"
    } else if value == 3 {
        "3"
    } else if value == 4 {
        "4"
    } else if value == 5 {
        "5"
    } else if value == 6 {
        "6"
    } else if value == 7 {
        "7"
    } else if value == 8 {
        "8"
    } else {
        "9"
    }
}

/// Appends `value` in decimal to `text`.
fn append_decimal(text: &mut String, value: u16)
    ensures
        final(text)@ == old(text)@ + decimal(value as nat),
    decreases value,
{
    if value >= 10 {
        append_decimal(text, value / 10);
    }
    text.append(digit_text(value % 10));
}

/// The public ingestion address that the process announces: the host, a
/// colon, the port in decimal, a slash and the update path.
pub fn webhook_address(local_url: &str, port: u16) -> (address: String)
    ensures
        address@ == local_url@ + ":"@ + decimal(port as nat) + "/"@ + UPDATE_PATH@,
{
    let mut address = String::from_str(local_url);
    address.append(":");
    append_decimal(&mut address, port);
    address.append("/");
    address.append(UPDATE_PATH);
    address
}

/// The address of the upstream service's registration call for the bot with
/// this token.
pub fn set_webhook_url(bot_token: &str) -> (url: String)
    ensures
        url@ == "https://api.telegram.org/bot"@ + bot_token@ + "/setWebhook"@,
{
    let mut url = String::from_str("https://api.telegram.org/bot");
    url.append(bot_token);
    url.append("/setWebhook");
    url
}

} // verus!
