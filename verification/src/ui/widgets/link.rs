//! Names rendered as links: which names are real, what a link asks for,
//! and the colours of the link-styled buttons.
use vstd::prelude::*;
use crate::text::{owned, str_eq};
use crate::ui::message::Message;
use crate::ui::theme::colors::{palette_of, AppColors, Rgb};

verus! {

/// The tag value shown for a song with no artist tag.
pub const UNKNOWN_ARTIST: &'static str = "Unknown Artist";
/// The tag value shown for a song with no album tag.
pub const UNKNOWN_ALBUM: &'static str = "Unknown Album";

/// Is `name` a real name rather than empty or a missing-tag placeholder?
pub open spec fn real_name(name: Seq<char>) -> bool {
    name.len() > 0 && name != UNKNOWN_ARTIST@ && name != UNKNOWN_ALBUM@
}

/// Is this a real name, or the placeholder for a missing tag? Navigating to
/// a placeholder would open a view of something MPD has never heard of.
pub fn is_real_name(name: &str) -> (r: bool)
    ensures
        r == real_name(name@),
{
    name.unicode_len() > 0 && !str_eq(name, UNKNOWN_ARTIST) && !str_eq(name, UNKNOWN_ALBUM)
}

/// The artist to send with an album: `artist` when it is a real name.
pub open spec fn kept_artist(artist: Option<Seq<char>>) -> Option<Seq<char>> {
    match artist {
        Some(a) => if real_name(a) { Some(a) } else { None },
        None => None,
    }
}

/// Does `m` ask for the album `album` under the artist `artist`?
pub open spec fn selects_album(m: Message, album: Seq<char>, artist: Option<Seq<char>>) -> bool {
    m matches Message::AlbumSelected(a, ar) && a@ == album && match ar {
        Some(x) => artist == Some(x@),
        None => artist is None,
    }
}

/// `a` as plain characters, if any.
pub open spec fn opt_view(a: Option<&str>) -> Option<Seq<char>> {
    match a {
        Some(s) => Some(s@),
        None => None,
    }
}

/// The `AlbumSelected` message for an album, with the artist dropped when it
/// is a placeholder, so that the artist-less path is taken only when there
/// is genuinely no artist.
pub fn album_message(album: &str, artist: Option<&str>) -> (m: Message)
    ensures
        selects_album(m, album@, kept_artist(opt_view(artist))),
{
    let kept = match artist {
        Some(a) => if is_real_name(a) { Some(owned(a)) } else { None },
        None => None,
    };
    Message::AlbumSelected(owned(album), kept)
}

/// What clicking an artist name asks for: the artist's view, or nothing when
/// the name is a placeholder (it is then drawn as inert text).
pub fn artist_link_message(name: &str) -> (m: Option<Message>)
    ensures
        real_name(name@) ==> (m matches Some(Message::ArtistSelected(a)) && a@ == name@),
        !real_name(name@) ==> m is None,
{
    if is_real_name(name) { Some(Message::ArtistSelected(owned(name))) } else { None }
}

/// What clicking an album name asks for: the album's view, or nothing when
/// the album name is a placeholder.
pub fn album_link_message(album: &str, artist: Option<&str>) -> (m: Option<Message>)
    ensures
        real_name(album@) ==> (m matches Some(x) && selects_album(x, album@, kept_artist(opt_view(artist)))),
        !real_name(album@) ==> m is None,
{
    if is_real_name(album) { Some(album_message(album, artist)) } else { None }
}

/// The interaction state of a button.
#[derive(Debug, Clone, Copy, PartialEq, Eq, Structural)]
pub enum ButtonStatus {
    Active,
    Hovered,
    Pressed,
    Disabled,
}

/// Is the pointer on the button (hovering or pressing)?
pub open spec fn engaged(s: ButtonStatus) -> bool {
    s == ButtonStatus::Hovered || s == ButtonStatus::Pressed
}

fn is_engaged(s: ButtonStatus) -> (r: bool)
    ensures
        r == engaged(s),
{
    match s {
        ButtonStatus::Hovered | ButtonStatus::Pressed => true,
        _ => false,
    }
}

/// The text colour of a link, and of a name link: secondary at rest, the
/// accent under the pointer.
pub fn link_text_color(colors: &AppColors, status: ButtonStatus) -> (c: Rgb)
    ensures
        c == (if engaged(status) { palette_of(colors.spec_dark()).accent }
            else { palette_of(colors.spec_dark()).text_secondary }),
{
    if is_engaged(status) { colors.accent() } else { colors.text_secondary() }
}

/// The text colour of a prominent link and of the Back button: the accent at
/// rest, primary text under the pointer.
pub fn accent_link_text_color(colors: &AppColors, status: ButtonStatus) -> (c: Rgb)
    ensures
        c == (if engaged(status) { palette_of(colors.spec_dark()).text_primary }
            else { palette_of(colors.spec_dark()).accent }),
{
    if is_engaged(status) { colors.text_primary() } else { colors.accent() }
}

/// The background and text colour of a compact glyph button: none and muted
/// at rest, the hover background and accent under the pointer, and the
/// disabled text colour when disabled, so that it does not look pressable.
pub fn icon_btn_colors(colors: &AppColors, status: ButtonStatus) -> (r: (Option<Rgb>, Rgb))
    ensures
        ({
            let p = palette_of(colors.spec_dark());
            r == (if engaged(status) { (Some(p.bg_hover), p.accent) }
                else if status == ButtonStatus::Disabled { (None, p.text_disabled) }
                else { (None, p.text_muted) })
        }),
{
    if is_engaged(status) {
        (Some(colors.bg_hover()), colors.accent())
    } else if status == ButtonStatus::Disabled {
        (None, colors.text_disabled())
    } else {
        (None, colors.text_muted())
    }
}

/// The colours of a glyph button that reads as destructive: the error colour
/// at rest and under the pointer, the disabled colour when disabled.
pub fn danger_btn_colors(colors: &AppColors, status: ButtonStatus) -> (r: (Option<Rgb>, Rgb))
    ensures
        ({
            let p = palette_of(colors.spec_dark());
            r == (if engaged(status) { (Some(p.bg_hover), p.error) }
                else if status == ButtonStatus::Disabled { (None, p.text_disabled) }
                else { (None, p.error) })
        }),
{
    if is_engaged(status) {
        (Some(colors.bg_hover()), colors.error())
    } else if status == ButtonStatus::Disabled {
        (None, colors.text_disabled())
    } else {
        (None, colors.error())
    }
}


/// A name is a real one exactly when it is not empty and is neither
/// "Unknown Artist" nor "Unknown Album"; an album link keeps its artist
/// exactly when that is a real name.
pub proof fn law_real_names(name: Seq<char>, artist: Option<Seq<char>>)
    ensures
        real_name(name) <==> (name.len() > 0 && name != "Unknown Artist"@ && name != "Unknown Album"@),
        kept_artist(artist) == (if artist matches Some(a) && a.len() > 0 && a != "Unknown Artist"@ && a != "Unknown Album"@ {
            artist
        } else {
            None
        }),
{
}

} // verus!
