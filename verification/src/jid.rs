use vstd::prelude::*;
use whatsapp_rust::Jid;
use whatsapp_rust::wacore_binary::jid::JidError;

verus! {

/// WhatsApp's chat address, as `whatsapp_rust` parses it.
#[verifier::external_type_specification]
#[verifier::external_body]
pub struct ExJid(Jid);

/// Why `whatsapp_rust` refuses a chat address.
#[verifier::external_type_specification]
#[verifier::external_body]
pub struct ExJidError(JidError);

/// What `whatsapp_rust`'s `FromStr for Jid` gives for the text `s`: the parsed
/// address, or the reason it is not one.
pub uninterp spec fn parsed_jid(s: Seq<char>) -> Result<Jid, JidError>;

/// Parses a chat address with `<Jid as FromStr>::from_str` of `whatsapp_rust`
/// (from `wacore_binary`). Claimed: the outcome is a function of the text alone
/// (the parser reads nothing but its argument), and the parser does not panic.
/// Nothing is claimed of which texts it accepts.
#[verifier::external_body]
pub(crate) fn parse_jid(s: &str) -> (res: Result<Jid, JidError>)
    ensures
        res == parsed_jid(s@),
{
    s.parse::<Jid>()
}

} // verus!
