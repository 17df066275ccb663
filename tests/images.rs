use sticky_surgery::chat::delivery_location;
use sticky_surgery::decimal::decimal;
use sticky_surgery::errors::Error;
use sticky_surgery::source::{LSticker, StickerSource};
use sticky_surgery::sticker::{ImageSource, Sticker};

#[test]
fn decimal_renders_identifiers() {
    assert_eq!(decimal(0), "0");
    assert_eq!(decimal(7), "7");
    assert_eq!(decimal(10), "10");
    assert_eq!(decimal(761260439207936012), "761260439207936012");
    assert_eq!(decimal(u64::MAX), "18446744073709551615");
}

#[test]
fn image_paths_by_scope() {
    let g = Sticker::new("bigbrain".to_string(), ImageSource::SelfHostedGuild(761260439207936012));
    assert_eq!(g.image_path(), Some("stickers/guild/761260439207936012/bigbrain.png".to_string()));
    let u = Sticker::new("wave".to_string(), ImageSource::SelfHostedPersonal(42));
    assert_eq!(u.image_path(), Some("stickers/user/42/wave.png".to_string()));
    let p = Sticker::new("hug".to_string(), ImageSource::SelfHostedPack("fun".to_string()));
    assert_eq!(p.image_path(), Some("stickers/pack/fun/hug.png".to_string()));
    let l = Sticker::new("x".to_string(), ImageSource::Local("/srv/x.png".to_string()));
    assert_eq!(l.image_path(), Some("/srv/x.png".to_string()));
    let e = Sticker::new("y".to_string(), ImageSource::External("https://e.org/y.png".to_string()));
    assert_eq!(e.image_path(), None);
    assert_eq!(g.name(), "bigbrain");
}

#[test]
fn image_urls_by_scope() {
    let host = Some("stickers.example".to_string());
    let g = Sticker::new("bigbrain".to_string(), ImageSource::SelfHostedGuild(761260439207936012));
    assert_eq!(
        g.image_url(host.clone()),
        Some("http://stickers.example/g/761260439207936012/bigbrain.png".to_string())
    );
    assert_eq!(g.image_url(None), None);
    let u = Sticker::new("wave".to_string(), ImageSource::SelfHostedPersonal(42));
    assert_eq!(u.image_url(host.clone()), Some("http://stickers.example/u/42/wave.png".to_string()));
    let p = Sticker::new("hug".to_string(), ImageSource::SelfHostedPack("fun".to_string()));
    assert_eq!(p.image_url(host.clone()), Some("http://stickers.example/p/fun/hug.png".to_string()));
    let l = Sticker::new("x".to_string(), ImageSource::Local("/srv/x.png".to_string()));
    assert_eq!(l.image_url(host.clone()), None);
    let e = Sticker::new("y".to_string(), ImageSource::External("https://e.org/y.png".to_string()));
    assert_eq!(e.image_url(None), Some("https://e.org/y.png".to_string()));
}

#[test]
fn attachment_uses_url_or_local_path() {
    let host = Some("h".to_string());
    let g = Sticker::new("b".to_string(), ImageSource::SelfHostedGuild(5));
    assert_eq!(g.attachment_location(host.clone()), Ok("http://h/g/5/b.png".to_string()));
    let e = Sticker::new("y".to_string(), ImageSource::External("https://e.org/y.png".to_string()));
    assert_eq!(e.attachment_location(None), Ok("https://e.org/y.png".to_string()));
    let l = Sticker::new("x".to_string(), ImageSource::Local("/srv/x.png".to_string()));
    assert_eq!(l.attachment_location(host), Ok("/srv/x.png".to_string()));
    assert_eq!(l.attachment_location(None), Ok("/srv/x.png".to_string()));
}

#[test]
fn self_hosted_without_host_is_unavailable() {
    for image in [
        ImageSource::SelfHostedGuild(5),
        ImageSource::SelfHostedPersonal(6),
        ImageSource::SelfHostedPack("fun".to_string()),
    ] {
        let s = Sticker::new("b".to_string(), image);
        assert_eq!(s.attachment_location(None), Err(Error::ResourceUnavailable));
    }
    let g = Sticker::new("b".to_string(), ImageSource::SelfHostedGuild(5));
    assert_eq!(delivery_location(Some(g), None), Err(Error::ResourceUnavailable));
}

#[test]
fn delivery_of_nothing_fails_with_message() {
    assert_eq!(delivery_location(None, None), Err(Error::Other("Sticker not available".to_string())));
    let g = Sticker::new("b".to_string(), ImageSource::SelfHostedPack("fun".to_string()));
    assert_eq!(delivery_location(Some(g), Some("h".to_string())), Ok("http://h/p/fun/b.png".to_string()));
}

#[test]
fn stored_sticker_owner_columns() {
    let g = LSticker::from_row(1, "a".to_string(), Some(5), None, None);
    assert_eq!(g.source, StickerSource::Guild(5));
    assert_eq!(g.id, 1);
    assert_eq!(g.name, "a");
    let u = LSticker::from_row(2, "b".to_string(), None, Some(6), Some(9));
    assert_eq!(u.source, StickerSource::User(6));
    let p = LSticker::from_row(3, "c".to_string(), None, None, Some(7));
    assert_eq!(p.source, StickerSource::Pack(7));
    let both = LSticker::from_row(4, "d".to_string(), Some(1), Some(2), None);
    assert_eq!(both.source, StickerSource::Guild(1));
}
