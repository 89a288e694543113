//! Checks and labels of the network page.
use vstd::prelude::*;

use crate::ids::DirectSeedId;
use crate::text::{parse_u16_spec, str_parse_u16, str_trim, string_push, trim_seq};

verus! {

broadcast use vstd::string::group_string_axioms;

/// How the sync token is shown: "unset" when there is none, otherwise one
/// star per character, at least eight.
pub open spec fn mask_token_spec(token: Seq<char>) -> Seq<char> {
    if token.len() == 0 {
        "unset"@
    } else {
        Seq::new(if token.len() > 8 { token.len() } else { 8 }, |i: int| '*')
    }
}

/// The masked form of the sync token.
pub fn mask_token(token: &str) -> (masked: String)
    ensures
        masked@ == mask_token_spec(token@),
{
    if token.is_empty() {
        return String::from_str("unset");
    }
    let count = token.unicode_len();
    let stars = if count > 8 { count } else { 8 };
    let mut out = String::new();
    let mut i: usize = 0;
    while i < stars
        invariant
            i <= stars,
            stars == (if token@.len() > 8 { token@.len() } else { 8 }),
            out@ =~= Seq::new(i as nat, |k: int| '*'),
        decreases stars - i,
    {
        string_push(&mut out, '*');
        i = i + 1;
    }
    out
}

/// A checked direct seed, ready to be saved.
#[derive(Debug)]
pub struct UpsertDirectSeedInput {
    pub id: Option<DirectSeedId>,
    pub label: String,
    pub host: String,
    pub port: u16,
    pub enabled: bool,
}

/// Checks the seed editor's fields: all three are required (after trimming)
/// and the port must be a number from 0 to 65535.
pub fn validate_seed_draft(
    id: Option<DirectSeedId>,
    label: &str,
    host: &str,
    port: &str,
    enabled: bool,
) -> (r: Result<UpsertDirectSeedInput, String>)
    ensures
        (trim_seq(label@).len() == 0 || trim_seq(host@).len() == 0 || trim_seq(port@).len() == 0)
            ==> (r matches Err(m) && m@ == "Name, host, and port are required."@),
        (trim_seq(label@).len() > 0 && trim_seq(host@).len() > 0 && trim_seq(port@).len() > 0
            && parse_u16_spec(trim_seq(port@)) is None) ==> (r matches Err(m) && m@ == "Port must be a valid number."@),
        (trim_seq(label@).len() > 0 && trim_seq(host@).len() > 0 && trim_seq(port@).len() > 0
            && parse_u16_spec(trim_seq(port@)) is Some) ==> (r matches Ok(input) && {
                &&& input.id == id
                &&& input.label@ == trim_seq(label@)
                &&& input.host@ == trim_seq(host@)
                &&& Some(input.port) == parse_u16_spec(trim_seq(port@))
                &&& input.enabled == enabled
            }),
{
    let label = str_trim(label);
    let host = str_trim(host);
    let port_text = str_trim(port);
    if label.is_empty() || host.is_empty() || port_text.is_empty() {
        return Err(String::from_str("Name, host, and port are required."));
    }
    let port = match str_parse_u16(port_text) {
        Some(port) => port,
        None => {
            return Err(String::from_str("Port must be a valid number."));
        },
    };
    Ok(UpsertDirectSeedInput { id, label: label.to_owned(), host: host.to_owned(), port, enabled })
}

/// The masked token shows no character of the token: it is "unset" for an
/// empty token, otherwise only stars, at least eight of them.
pub proof fn law_mask_hides_token(token: Seq<char>)
    ensures
        token.len() == 0 ==> mask_token_spec(token) == "unset"@,
        token.len() > 0 ==> mask_token_spec(token).len() >= 8 && mask_token_spec(token).len() >= token.len()
            && forall|i: int| 0 <= i < mask_token_spec(token).len() ==> #[trigger] mask_token_spec(token)[i] == '*',
{
}

} // verus!
