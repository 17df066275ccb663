//! The decisions taken at the chat boundary: which messages request a
//! sticker, which relay hook a channel uses, what a command answers.
use vstd::prelude::*;
use vstd::string::*;

use crate::decimal::{decimal, decimal_chars};
use crate::errors::Error;
use crate::sticker::Sticker;

verus! {

/// A character that may appear in a requested sticker name: an ASCII letter
/// or digit, `-`, `_`, `+` or a space.
pub open spec fn name_char(c: char) -> bool {
    ('a' <= c && c <= 'z') || ('A' <= c && c <= 'Z') || ('0' <= c && c <= '9') || c == '-' || c == '_'
        || c == '+' || c == ' '
}

/// The sticker name that a message consisting of `text` requests: a message
/// that is exactly `:name:` requests `name`.
pub open spec fn requested_name(text: Seq<char>) -> Option<Seq<char>> {
    if text.len() >= 2 && text[0] == ':' && text[text.len() - 1] == ':' && (forall|i: int|
        1 <= i < text.len() - 1 ==> name_char(#[trigger] text[i])) {
        Some(text.subrange(1, text.len() - 1))
    } else {
        None
    }
}

fn is_name_char(c: char) -> (r: bool)
    ensures
        r == name_char(c),
{
    ('a' <= c && c <= 'z') || ('A' <= c && c <= 'Z') || ('0' <= c && c <= '9') || c == '-' || c == '_'
        || c == '+' || c == ' '
}

/// The sticker name requested by a message whose text is `content`, if it
/// requests one.
pub fn sticker_request(content: &str) -> (r: Option<String>)
    ensures
        match r {
            Some(s) => requested_name(content@) == Some(s@),
            None => requested_name(content@) is None,
        },
{
    let n = content.unicode_len();
    if n < 2 || content.get_char(0) != ':' || content.get_char(n - 1) != ':' {
        return None;
    }
    let mut i: usize = 1;
    while i < n - 1
        invariant
            n == content@.len(),
            2 <= n,
            1 <= i <= n - 1,
            forall|j: int| 1 <= j < i ==> name_char(#[trigger] content@[j]),
        decreases n - i,
    {
        if !is_name_char(content.get_char(i)) {
            return None;
        }
        i = i + 1;
    }
    Some(String::from_str(content.substring_char(1, n - 1)))
}

/// The name of the relay hook this service keeps in a channel.
pub open spec fn webhook_name_spec(channel: u64) -> Seq<char> {
    "stickysurgery-"@ + decimal_chars(channel as nat)
}

pub fn webhook_name(channel: u64) -> (r: String)
    ensures
        r@ == webhook_name_spec(channel),
{
    let d = decimal(channel);
    String::from_str("stickysurgery-").concat(d.as_str())
}

/// Of the hooks of a channel, given by their names, the first that this
/// service made and can reuse.
pub fn reusable_webhook(names: &Vec<Option<String>>, channel: u64) -> (r: Option<usize>)
    ensures
        match r {
            Some(i) => i < names@.len() && names@[i as int] is Some && names@[i as int]->Some_0@
                == webhook_name_spec(channel) && forall|j: int|
                0 <= j < i ==> !(names@[j] is Some && (#[trigger] names@[j])->Some_0@ == webhook_name_spec(channel)),
            None => forall|j: int|
                0 <= j < names@.len() ==> !(names@[j] is Some && (#[trigger] names@[j])->Some_0@ == webhook_name_spec(channel)),
        },
{
    let wanted = webhook_name(channel);
    let mut i: usize = 0;
    while i < names.len()
        invariant
            i <= names@.len(),
            wanted@ == webhook_name_spec(channel),
            forall|j: int|
                0 <= j < i ==> !(names@[j] is Some && (#[trigger] names@[j])->Some_0@ == webhook_name_spec(channel)),
        decreases names@.len() - i,
    {
        match &names[i] {
            Some(name) => {
                if *name == wanted {
                    return Some(i);
                }
            },
            None => {},
        }
        i = i + 1;
    }
    None
}

/// Where the image of a resolved sticker is fetched from when it is sent;
/// a request that resolved to nothing fails with a message saying so.
pub fn delivery_location(resolved: Option<Sticker>, hostname: Option<String>) -> (r: Result<String, Error>)
    ensures
        match resolved {
            Some(sticker) => sticker.attachment_outcome(hostname, r),
            None => match r {
                Err(Error::Other(m)) => m@ == "Sticker not available"@,
                _ => false,
            },
        },
{
    match resolved {
        Some(sticker) => sticker.attachment_location(hostname),
        None => Err(Error::Other(String::from_str("Sticker not available"))),
    }
}

/// The name and avatar under which a sticker is relayed into a channel.
#[derive(Debug, Clone)]
pub struct WebhookIdentityDefinition {
    pub username: String,
    pub avatar_url: String,
}

impl WebhookIdentityDefinition {
    pub fn new(username: String, avatar_url: String) -> (r: WebhookIdentityDefinition)
        ensures
            r.username == username,
            r.avatar_url == avatar_url,
    {
        WebhookIdentityDefinition { username, avatar_url }
    }

    /// The identity of a requester: their name, and their own avatar, or the
    /// platform's default avatar for them where they set none.
    pub fn from_profile(name: String, avatar_url: Option<String>, default_avatar_url: String) -> (r: WebhookIdentityDefinition)
        ensures
            r.username == name,
            r.avatar_url == match avatar_url {
                Some(a) => a,
                None => default_avatar_url,
            },
    {
        let avatar = match avatar_url {
            Some(a) => a,
            None => default_avatar_url,
        };
        WebhookIdentityDefinition { username: name, avatar_url: avatar }
    }
}

impl Default for WebhookIdentityDefinition {
    fn default() -> (r: WebhookIdentityDefinition)
        ensures
            r.username@ == "Sticky Surgery"@,
            r.avatar_url@ == "Sticky Surgery avatar url"@,
    {
        WebhookIdentityDefinition {
            username: String::from_str("Sticky Surgery"),
            avatar_url: String::from_str("Sticky Surgery avatar url"),
        }
    }
}

/// What to do about a slash command.
#[derive(Debug, Clone, PartialEq, Eq)]
pub enum CommandAction {
    /// Send the named sticker.
    Send(String),
    /// Answer the invoker with this text.
    Reply(String),
}

fn same_text(a: &str, b: &str) -> (r: bool)
    ensures
        r == (a@ == b@),
{
    let n = a.unicode_len();
    if n != b.unicode_len() {
        return false;
    }
    let mut i: usize = 0;
    while i < n
        invariant
            n == a@.len(),
            n == b@.len(),
            i <= n,
            forall|j: int| 0 <= j < i ==> a@[j] == b@[j],
        decreases n - i,
    {
        if a.get_char(i) != b.get_char(i) {
            return false;
        }
        i = i + 1;
    }
    assert(a@ =~= b@);
    true
}

/// The command `st` sends the sticker named by its text option; given no
/// text option it asks for a valid name. Other commands are not implemented.
pub fn command_action(command: &str, sticker: Option<String>) -> (r: CommandAction)
    ensures
        command@ == "st"@ ==> match sticker {
            Some(s) => r == CommandAction::Send(s),
            None => (r matches CommandAction::Reply(m) && m@ == "Please provide a valid sticker name"@),
        },
        command@ != "st"@ ==> (r matches CommandAction::Reply(m) && m@ == "not implemented :("@),
{
    if same_text(command, "st") {
        match sticker {
            Some(s) => CommandAction::Send(s),
            None => CommandAction::Reply(String::from_str("Please provide a valid sticker name")),
        }
    } else {
        CommandAction::Reply(String::from_str("not implemented :("))
    }
}

} // verus!
