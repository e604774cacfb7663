use vstd::prelude::*;

use vstd::string::StringExecFns;

use crate::textenc::url_encode;
use crate::textenc::urlenc_of;

verus! {

/// The digit character for `d`.
pub open spec fn digit_char(d: nat) -> char {
    if d == 0 {
        '0'
    } else if d == 1 {
        '1'
    } else if d == 2 {
        '2'
    } else if d == 3 {
        '3'
    } else if d == 4 {
        '4'
    } else if d == 5 {
        '5'
    } else if d == 6 {
        '6'
    } else if d == 7 {
        '7'
    } else if d == 8 {
        '8'
    } else {
        '9'
    }
}

/// The decimal representation of `n`, most significant digit first.
pub open spec fn dec_rep(n: nat) -> Seq<char>
    decreases n,
{
    if n < 10 {
        seq![digit_char(n)]
    } else {
        dec_rep(n / 10).push(digit_char(n % 10))
    }
}

fn digit_str(d: u16) -> (r: &'static str)
    requires
        d < 10,
    ensures
        r@ == seq![digit_char(d as nat)],
{
    proof {
        reveal_strlit("0");
        reveal_strlit("1");
        reveal_strlit("2");
        reveal_strlit("3");
        reveal_strlit("4");
        reveal_strlit("5");
        reveal_strlit("6");
        reveal_strlit("7");
        reveal_strlit("8");
        reveal_strlit("9");
    }
    let r = if d == 0 {
        "0"
    } else if d == 1 {
        "1"
    } else if d == 2 {
        "2"
    } else if d == 3 {
        "3"
    } else if d == 4 {
        "4"
    } else if d == 5 {
        "5"
    } else if d == 6 {
        "6"
    } else if d == 7 {
        "7"
    } else if d == 8 {
        "8"
    } else {
        "9"
    };
    proof {
        assert(r@ =~= seq![digit_char(d as nat)]);
    }
    r
}

/// Renders a port number in decimal.
pub fn u16_to_dec(n: u16) -> (r: String)
    ensures
        r@ == dec_rep(n as nat),
    decreases n,
{
    let d = n % 10;
    let ds = digit_str(d);
    if n < 10 {
        String::from_str(ds)
    } else {
        let mut s = u16_to_dec(n / 10);
        s.append(ds);
        s
    }
}

/// The loopback redirect address for an ephemeral port.
pub open spec fn redirect_uri_spec(port: u16) -> Seq<char> {
    "http://127.0.0.1:"@ + dec_rep(port as nat)
}

/// Builds `http://127.0.0.1:<port>`.
pub fn redirect_uri_for_port(port: u16) -> (r: String)
    ensures
        r@ == redirect_uri_spec(port),
{
    let mut s = String::from_str("http://127.0.0.1:");
    let digits = u16_to_dec(port);
    s.append(digits.as_str());
    s
}

/// The scopes requested at sign-in.
pub fn auth_scope() -> (r: &'static str)
    ensures
        r@ == "openid email profile"@,
{
    "openid email profile"
}

/// The provider's authorization endpoint URL for one attempt: every
/// caller-dependent part is percent-encoded into the fixed skeleton.
pub open spec fn auth_url_spec(
    client_id: Seq<char>,
    redirect_uri: Seq<char>,
    state: Seq<char>,
    challenge: Seq<char>,
) -> Seq<char> {
    "https://accounts.google.com/o/oauth2/v2/auth?response_type=code&client_id="@ + urlenc_of(
        client_id,
    ) + "&redirect_uri="@ + urlenc_of(redirect_uri) + "&scope="@ + urlenc_of(
        "openid email profile"@,
    ) + "&state="@ + urlenc_of(state) + "&code_challenge="@ + urlenc_of(challenge)
        + "&code_challenge_method=S256&access_type=offline&prompt=consent"@
}

/// Assembles the authorization URL the system browser is pointed at.
pub fn build_auth_url(client_id: &str, redirect_uri: &str, state: &str, challenge: &str) -> (r:
    String)
    ensures
        r@ == auth_url_spec(client_id@, redirect_uri@, state@, challenge@),
{
    let mut s = String::from_str(
        "https://accounts.google.com/o/oauth2/v2/auth?response_type=code&client_id=",
    );
    let enc_client = url_encode(client_id);
    s.append(enc_client.as_str());
    s.append("&redirect_uri=");
    let enc_redirect = url_encode(redirect_uri);
    s.append(enc_redirect.as_str());
    s.append("&scope=");
    let enc_scope = url_encode(auth_scope());
    s.append(enc_scope.as_str());
    s.append("&state=");
    let enc_state = url_encode(state);
    s.append(enc_state.as_str());
    s.append("&code_challenge=");
    let enc_challenge = url_encode(challenge);
    s.append(enc_challenge.as_str());
    s.append("&code_challenge_method=S256&access_type=offline&prompt=consent");
    s
}

/// Relies on uuid's `Uuid::new_v4` rendered through its hyphenated
/// `Display` form: a fresh random correlation token of 36 characters;
/// nothing can be promised of its value.
#[verifier::external_body]
pub(crate) fn new_state_token() -> (r: String)
    ensures
        r@.len() == 36,
{
    uuid::Uuid::new_v4().to_string()
}

} // verus!
