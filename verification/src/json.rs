use vstd::prelude::*;

verus! {

/// The JSON string literal that `serde_json` writes for a text: the text between double
/// quotes, with the characters escaped that JSON does not allow bare.
pub uninterp spec fn json_string(text: Seq<char>) -> Seq<char>;

/// Calls `serde_json::to_string` on a string slice and returns the literal it wrote, quotes
/// included. Nothing is proved of this: the contract names what the call returns and
/// claims that it always returns. `serde_json` reports an error only where the value's
/// `Serialize` impl or the writer fails; the impl of `str` has no failing path and the
/// writer is a `Vec<u8>`, which takes every write.
#[verifier::external_body]
fn quote(text: &str) -> (literal: String)
    ensures
        literal@ == json_string(text@),
{
    serde_json::to_string(text).expect("a string slice always serializes")
}

/// The character of a decimal digit.
pub open spec fn digit(d: nat) -> char
    recommends
        d < 10,
{
    if d == 0 {
        '0'
    } else if d == 1 {
        '1'
    } else if d == 2 {
        '2'
    } else if d == 3 {
        '3'
    } else if d == 4 {
        '4'
    } else if d == 5 {
        '5'
    } else if d == 6 {
        '6'
    } else if d == 7 {
        '7'
    } else if d == 8 {
        '8'
    } else {
        '9'
    }
}

/// A number in decimal digits, most significant first and without leading zeros.
pub open spec fn decimal(n: nat) -> Seq<char>
    decreases n,
{
    if n < 10 {
        seq![digit(n)]
    } else {
        decimal(n / 10).push(digit(n % 10))
    }
}

fn digit_text(d: u64) -> (text: &'static str)
    requires
        d < 10,
    ensures
        text@ == seq![digit(d as nat)],
{
    proof {
        reveal_strlit("0");
        reveal_strlit("1");
        reveal_strlit("2");
        reveal_strlit("3");
        reveal_strlit("4");
        reveal_strlit("5");
        reveal_strlit("6");
        reveal_strlit("7");
        reveal_strlit("8");
        reveal_strlit("9");
    }
    let text = if d == 0 {
        "0"
    } else if d == 1 {
        "1"
    } else if d == 2 {
        "2"
    } else if d == 3 {
        "3"
    } else if d == 4 {
        "4"
    } else if d == 5 {
        "5"
    } else if d == 6 {
        "6"
    } else if d == 7 {
        "7"
    } else if d == 8 {
        "8"
    } else {
        "9"
    };
    assert(text@ =~= seq![digit(d as nat)]);
    text
}

/// Writes a number in decimal.
pub fn decimal_text(n: u64) -> (text: String)
    ensures
        text@ == decimal(n as nat),
    decreases n,
{
    if n < 10 {
        digit_text(n).to_owned()
    } else {
        let mut text = decimal_text(n / 10);
        text.append(digit_text(n % 10));
        assert(text@ =~= decimal((n / 10) as nat).push(digit((n % 10) as nat)));
        text
    }
}

/// The JSON object of a user, given the literal of the user's name: the two members in the
/// order `id`, `username`, with no white space.
pub open spec fn user_object(id: nat, name_literal: Seq<char>) -> Seq<char> {
    "{\"id\":"@ + decimal(id) + ",\"username\":"@ + name_literal + "}"@
}

/// The JSON text of a user.
pub open spec fn user_json(id: nat, username: Seq<char>) -> Seq<char> {
    user_object(id, json_string(username))
}

/// Frames a user's JSON object round the literal of the name.
pub fn frame_user(id: u64, name_literal: &str) -> (json: String)
    ensures
        json@ == user_object(id as nat, name_literal@),
{
    let mut json = "{\"id\":".to_owned();
    let number = decimal_text(id);
    json.append(number.as_str());
    json.append(",\"username\":");
    json.append(name_literal);
    json.append("}");
    json
}

/// Writes a user as JSON.
pub fn encode_user(id: u64, username: &str) -> (json: String)
    ensures
        json@ == user_json(id as nat, username@),
{
    let literal = quote(username);
    frame_user(id, literal.as_str())
}

} // verus!
