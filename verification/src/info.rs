use vstd::prelude::*;
use vstd::string::*;

verus! {

/// What the mint's operator configured to tell about the mint.
pub struct MintInfoSettings {
    pub name: Option<String>,
    /// Whether the mint tells its software version.
    pub version: bool,
    pub description: Option<String>,
    pub description_long: Option<String>,
    pub contact_email: Option<String>,
    pub contact_twitter: Option<String>,
    pub contact_nostr: Option<String>,
    pub motd: Option<String>,
}

/// What the mint tells about itself: `K` is its public key, `N` the
/// optional protocol features (nuts) it supports.
pub struct MintInfo<K, N> {
    pub nuts: N,
    pub name: Option<String>,
    pub pubkey: K,
    pub version: Option<String>,
    pub description: Option<String>,
    pub description_long: Option<String>,
    /// Pairs of a contact method and the address under it.
    pub contact: Option<Vec<Vec<String>>>,
    pub motd: Option<String>,
}

/// The contact entry for one method: the pair of its tag and the address,
/// where an address is configured.
pub open spec fn contact_entry(tag: Seq<char>, value: Option<String>) -> Seq<Seq<Seq<char>>> {
    match value {
        Some(v) => seq![seq![tag, v@]],
        None => Seq::empty(),
    }
}

/// The contacts that the mint announces: e-mail, then Twitter, then Nostr,
/// each only where it is configured.
pub open spec fn announced_contacts(s: MintInfoSettings) -> Seq<Seq<Seq<char>>> {
    contact_entry("email"@, s.contact_email) + contact_entry("twitter"@, s.contact_twitter)
        + contact_entry("nostr"@, s.contact_nostr)
}

/// The text view of an optional text.
pub open spec fn opt_view(o: Option<String>) -> Option<Seq<char>> {
    match o {
        Some(s) => Some(s@),
        None => None,
    }
}

/// Appends the contact entry for `tag` where an address is configured.
fn push_contact(contacts: &mut Vec<Vec<String>>, tag: &str, value: Option<String>)
    ensures
        final(contacts).deep_view() == old(contacts).deep_view() + contact_entry(tag@, value),
{
    match value {
        Some(v) => {
            let mut pair: Vec<String> = Vec::new();
            pair.push(String::from_str(tag));
            pair.push(v);
            assert(pair.deep_view() =~= seq![tag@, v@]);
            let ghost before = contacts.deep_view();
            contacts.push(pair);
            assert(contacts.deep_view() =~= before + contact_entry(tag@, value));
        },
        None => {
            assert(contacts.deep_view() =~= contacts.deep_view() + contact_entry(tag@, value));
        },
    }
}

/// The mint's self-description, from its settings, its public key, the
/// nuts it supports and its full software version. The version is told
/// only where the settings ask for it; the contacts are those configured,
/// in the order e-mail, Twitter, Nostr.
pub fn mint_info<K, N>(settings: MintInfoSettings, pubkey: K, nuts: N, full_version: String) -> (info:
    MintInfo<K, N>)
    ensures
        info.contact matches Some(c) && c.deep_view() == announced_contacts(settings),
        opt_view(info.version) == (if settings.version {
            Some(full_version@)
        } else {
            None
        }),
        opt_view(info.name) == opt_view(settings.name),
        opt_view(info.description) == opt_view(settings.description),
        opt_view(info.description_long) == opt_view(settings.description_long),
        opt_view(info.motd) == opt_view(settings.motd),
        info.pubkey == pubkey,
        info.nuts == nuts,
{
    let ghost s = settings;
    let MintInfoSettings {
        name,
        version,
        description,
        description_long,
        contact_email,
        contact_twitter,
        contact_nostr,
        motd,
    } = settings;
    let mut contacts: Vec<Vec<String>> = Vec::new();
    assert(contacts.deep_view() =~= Seq::<Seq<Seq<char>>>::empty());
    push_contact(&mut contacts, "email", contact_email);
    push_contact(&mut contacts, "twitter", contact_twitter);
    push_contact(&mut contacts, "nostr", contact_nostr);
    let version = if version {
        Some(full_version)
    } else {
        None
    };
    MintInfo {
        nuts,
        name,
        pubkey,
        version,
        description,
        description_long,
        contact: Some(contacts),
        motd,
    }
}

/// The contacts that the mint announces are exactly its configured
/// addresses: one entry per configured method, each naming the method.
pub proof fn lemma_announced_contacts_count(s: MintInfoSettings)
    ensures
        announced_contacts(s).len() == (if s.contact_email is Some { 1int } else { 0int }) + (
        if s.contact_twitter is Some {
            1int
        } else {
            0int
        }) + (if s.contact_nostr is Some {
            1int
        } else {
            0int
        }),
        forall|i: int|
            0 <= i < announced_contacts(s).len() ==> #[trigger] announced_contacts(s)[i].len() == 2,
{
    let e = contact_entry("email"@, s.contact_email);
    let t = contact_entry("twitter"@, s.contact_twitter);
    let n = contact_entry("nostr"@, s.contact_nostr);
    assert forall|i: int| 0 <= i < announced_contacts(s).len() implies #[trigger] announced_contacts(
        s,
    )[i].len() == 2 by {
        if i < e.len() {
            assert(announced_contacts(s)[i] == e[i]);
        } else if i < e.len() + t.len() {
            assert(announced_contacts(s)[i] == t[i - e.len()]);
        } else {
            assert(announced_contacts(s)[i] == n[i - e.len() - t.len()]);
        }
    }
}

} // verus!
