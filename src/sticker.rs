//! Stickers, packs, and the references to their images.
use vstd::prelude::*;
use vstd::string::*;

use crate::decimal::{decimal, decimal_chars};
use crate::errors::Error;

verus! {

/// Where the image of a sticker lives.
#[derive(Debug, Clone)]
pub enum ImageSource {
    /// A file in the server's local file system.
    Local(String),
    /// An external image URL.
    External(String),
    /// An image hosted by this service for the sticker of a community.
    SelfHostedGuild(u64),
    /// An image hosted by this service for a personal sticker of a user.
    SelfHostedPersonal(u64),
    /// An image hosted by this service for a sticker of the named pack.
    SelfHostedPack(String),
}

/// A named image, owned by a community, a user or a pack.
#[derive(Debug, Clone)]
pub struct Sticker {
    pub name: String,
    pub image: ImageSource,
}

/// A shareable, named bundle of stickers.
#[derive(Debug, Clone)]
pub struct StickerPack {
    pub name: String,
    pub display_name: String,
    pub stickers: Vec<Sticker>,
}

/// The reference of a self-hosted image: `prefix`, the kind of scope, the
/// scope, then `/<name>.png`.
pub open spec fn scoped_ref(prefix: Seq<char>, kind: Seq<char>, scope: Seq<char>, name: Seq<char>) -> Seq<char> {
    prefix + kind + scope + "/"@ + name + ".png"@
}

/// The characters of a configured host name.
pub open spec fn host_view(hostname: Option<String>) -> Option<Seq<char>> {
    match hostname {
        Some(h) => Some(h@),
        None => None,
    }
}

/// The first sticker of `stickers` from index `i` on whose name is `name`.
pub open spec fn first_named_from(stickers: Seq<Sticker>, name: Seq<char>, i: int) -> Option<Sticker>
    decreases stickers.len() - i,
{
    if i < 0 || i >= stickers.len() {
        None
    } else if stickers[i].name@ == name {
        Some(stickers[i])
    } else {
        first_named_from(stickers, name, i + 1)
    }
}

/// The first sticker of `stickers` whose name is exactly `name`.
pub open spec fn first_named(stickers: Seq<Sticker>, name: Seq<char>) -> Option<Sticker> {
    first_named_from(stickers, name, 0)
}

/// A match found by `first_named` bears the name and stands in the sequence.
pub proof fn lemma_first_named_found(stickers: Seq<Sticker>, name: Seq<char>, i: int)
    requires
        0 <= i,
    ensures
        first_named_from(stickers, name, i) is Some ==> {
            let s = first_named_from(stickers, name, i)->Some_0;
            s.name@ == name && stickers.contains(s)
        },
        first_named_from(stickers, name, i) is None ==> forall|j: int|
            i <= j < stickers.len() ==> stickers[j].name@ != name,
    decreases stickers.len() - i,
{
    if i < stickers.len() {
        lemma_first_named_found(stickers, name, i + 1);
    }
}

impl ImageSource {
    /// A copy equal to `self`.
    pub fn duplicate(&self) -> (r: ImageSource)
        ensures
            r == *self,
    {
        match self {
            ImageSource::Local(p) => ImageSource::Local(p.clone()),
            ImageSource::External(u) => ImageSource::External(u.clone()),
            ImageSource::SelfHostedGuild(g) => ImageSource::SelfHostedGuild(*g),
            ImageSource::SelfHostedPersonal(u) => ImageSource::SelfHostedPersonal(*u),
            ImageSource::SelfHostedPack(p) => ImageSource::SelfHostedPack(p.clone()),
        }
    }
}

fn scoped(prefix: String, kind: &str, scope: &str, name: &str) -> (r: String)
    ensures
        r@ == scoped_ref(prefix@, kind@, scope@, name@),
{
    let mut s = prefix;
    s.append(kind);
    s.append(scope);
    s.append("/");
    s.append(name);
    s.append(".png");
    s
}

impl Sticker {
    pub fn new(name: String, image: ImageSource) -> (r: Sticker)
        ensures
            r.name == name,
            r.image == image,
    {
        Sticker { name, image }
    }

    /// A copy equal to `self`.
    pub fn duplicate(&self) -> (r: Sticker)
        ensures
            r == *self,
    {
        Sticker { name: self.name.clone(), image: self.image.duplicate() }
    }

    pub fn name(&self) -> (r: String)
        ensures
            r == self.name,
    {
        self.name.clone()
    }

    /// The path of the image file, relative to the directory of hosted
    /// images; `None` for an external image.
    pub open spec fn image_path_spec(&self) -> Option<Seq<char>> {
        match self.image {
            ImageSource::Local(p) => Some(p@),
            ImageSource::External(_) => None,
            ImageSource::SelfHostedGuild(g) => Some(
                scoped_ref(Seq::empty(), "stickers/guild/"@, decimal_chars(g as nat), self.name@),
            ),
            ImageSource::SelfHostedPersonal(u) => Some(
                scoped_ref(Seq::empty(), "stickers/user/"@, decimal_chars(u as nat), self.name@),
            ),
            ImageSource::SelfHostedPack(p) => Some(
                scoped_ref(Seq::empty(), "stickers/pack/"@, p@, self.name@),
            ),
        }
    }

    /// The URL of the image when this service is reachable at `hostname`;
    /// `None` for a local file, and for a self-hosted image without a host name.
    pub open spec fn image_url_spec(&self, hostname: Option<Seq<char>>) -> Option<Seq<char>> {
        match self.image {
            ImageSource::Local(_) => None,
            ImageSource::External(u) => Some(u@),
            ImageSource::SelfHostedGuild(g) => match hostname {
                Some(h) => Some(scoped_ref("http://"@ + h, "/g/"@, decimal_chars(g as nat), self.name@)),
                None => None,
            },
            ImageSource::SelfHostedPersonal(u) => match hostname {
                Some(h) => Some(scoped_ref("http://"@ + h, "/u/"@, decimal_chars(u as nat), self.name@)),
                None => None,
            },
            ImageSource::SelfHostedPack(p) => match hostname {
                Some(h) => Some(scoped_ref("http://"@ + h, "/p/"@, p@, self.name@)),
                None => None,
            },
        }
    }

    pub fn image_path(&self) -> (r: Option<String>)
        ensures
            r.is_some() == self.image_path_spec().is_some(),
            r.is_some() ==> r.unwrap()@ == self.image_path_spec().unwrap(),
    {
        match &self.image {
            ImageSource::Local(path) => Some(path.clone()),
            ImageSource::External(_) => None,
            ImageSource::SelfHostedGuild(guild) => {
                let g = decimal(*guild);
                Some(scoped(String::new(), "stickers/guild/", g.as_str(), self.name.as_str()))
            },
            ImageSource::SelfHostedPersonal(user) => {
                let u = decimal(*user);
                Some(scoped(String::new(), "stickers/user/", u.as_str(), self.name.as_str()))
            },
            ImageSource::SelfHostedPack(pack) => {
                Some(scoped(String::new(), "stickers/pack/", pack.as_str(), self.name.as_str()))
            },
        }
    }

    /// `hostname` is the host name this service is reachable at, if one is
    /// configured.
    pub fn image_url(&self, hostname: Option<String>) -> (r: Option<String>)
        ensures
            r.is_some() == self.image_url_spec(host_view(hostname)).is_some(),
            r.is_some() ==> r.unwrap()@ == self.image_url_spec(host_view(hostname)).unwrap(),
    {
        match &self.image {
            ImageSource::Local(_) => None,
            ImageSource::External(url) => Some(url.clone()),
            ImageSource::SelfHostedGuild(guild) => match hostname {
                Some(h) => {
                    let prefix = String::from_str("http://").concat(h.as_str());
                    let g = decimal(*guild);
                    Some(scoped(prefix, "/g/", g.as_str(), self.name.as_str()))
                },
                None => None,
            },
            ImageSource::SelfHostedPersonal(user) => match hostname {
                Some(h) => {
                    let prefix = String::from_str("http://").concat(h.as_str());
                    let u = decimal(*user);
                    Some(scoped(prefix, "/u/", u.as_str(), self.name.as_str()))
                },
                None => None,
            },
            ImageSource::SelfHostedPack(pack) => match hostname {
                Some(h) => {
                    let prefix = String::from_str("http://").concat(h.as_str());
                    Some(scoped(prefix, "/p/", pack.as_str(), self.name.as_str()))
                },
                None => None,
            },
        }
    }

    /// Where the image is to be fetched from when it is sent.
    /// `r` is what sending the image uses: a local file by its path; any
    /// other image by its URL, and `ResourceUnavailable` where no URL can be
    /// made for it (a self-hosted image while no host name is configured).
    pub open spec fn attachment_outcome(&self, hostname: Option<String>, r: Result<String, Error>) -> bool {
        let url = self.image_url_spec(host_view(hostname));
        match r {
            Ok(s) => match self.image {
                ImageSource::Local(p) => s@ == p@,
                _ => url is Some && s@ == url->Some_0,
            },
            Err(e) => !(self.image is Local) && url is None && e == Error::ResourceUnavailable,
        }
    }

    /// Where the image is to be fetched from when it is sent.
    pub fn attachment_location(&self, hostname: Option<String>) -> (r: Result<String, Error>)
        ensures
            self.attachment_outcome(hostname, r),
    {
        match &self.image {
            ImageSource::Local(path) => Ok(path.clone()),
            _ => match self.image_url(hostname) {
                Some(url) => Ok(url),
                None => Err(Error::ResourceUnavailable),
            },
        }
    }
}

impl StickerPack {
    pub fn new(name: String, display_name: String, stickers: Vec<Sticker>) -> (r: StickerPack)
        ensures
            r.name == name,
            r.display_name == display_name,
            r.stickers == stickers,
    {
        StickerPack { name, display_name, stickers }
    }
}

/// The first sticker of `stickers` named `name`, as `first_named` says.
pub fn find_named(stickers: &Vec<Sticker>, name: &String) -> (r: Option<Sticker>)
    ensures
        r == first_named(stickers@, name@),
{
    let mut i: usize = 0;
    while i < stickers.len()
        invariant
            i <= stickers@.len(),
            first_named(stickers@, name@) == first_named_from(stickers@, name@, i as int),
        decreases stickers@.len() - i,
    {
        if stickers[i].name == *name {
            return Some(stickers[i].duplicate());
        }
        i = i + 1;
    }
    None
}

} // verus!
