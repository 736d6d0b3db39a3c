//! The queue's rows: which one is playing and what each control asks for.
use vstd::prelude::*;
use crate::ui::message::Message;
use vstd::view::View as DataView;
use crate::ui::widgets::song_row::is_current_pos;

verus! {

/// What the controls of a queue row ask for. The queue has no "add to the
/// end of the queue": its rows already are the queue.
#[derive(Debug, Clone)]
pub struct QueueRow {
    /// The queue position the row plays and moves (0 when MPD gave none).
    pub pos: u32,
    /// Is it the playing entry? Matched by queue position: the same file can
    /// be queued twice.
    pub is_current: bool,
    /// The title plays it.
    pub play: Message,
    /// Move up, not on the first row.
    pub move_up: Option<Message>,
    /// Move down, not on the last row.
    pub move_down: Option<Message>,
    /// Add to a stored playlist.
    pub add_to_playlist: Message,
    /// Remove, when MPD gave the entry an id.
    pub remove: Option<Message>,
}

/// The row at `index` of a queue of `len` entries, for the song `file` at
/// queue position `pos` with queue id `id`, while `current_pos` plays.
pub fn queue_row(file: &str, pos: Option<u32>, id: Option<u32>, index: usize, len: usize, current_pos: Option<u32>) -> (r: QueueRow)
    requires
        index < len,
    ensures
        ({
            let p = match pos { Some(p) => p, None => 0u32 };
            &&& r.pos == p
            &&& r.is_current == (current_pos == Some(p))
            &&& r.play == Message::QueuePlay(p)
            &&& r.move_up == (if index > 0 { Some(Message::QueueMoveUp(p)) } else { None })
            &&& r.move_down == (if index + 1 < len { Some(Message::QueueMoveDown(p)) } else { None })
            &&& (r.add_to_playlist matches Message::OpenAddToPlaylist(v) && v@.len() == 1 && v@[0]@ == file@)
            &&& r.remove == (match id { Some(i) => Some(Message::QueueRemove(i)), None => None })
        }),
{
    let p: u32 = match pos {
        Some(p) => p,
        None => 0,
    };
    let mut uris: Vec<String> = Vec::new();
    uris.push(String::from_str(file));
    QueueRow {
        pos: p,
        is_current: is_current_pos(p, current_pos),
        play: Message::QueuePlay(p),
        move_up: if index > 0 { Some(Message::QueueMoveUp(p)) } else { None },
        move_down: if index + 1 < len { Some(Message::QueueMoveDown(p)) } else { None },
        add_to_playlist: Message::OpenAddToPlaylist(uris),
        remove: match id {
            Some(i) => Some(Message::QueueRemove(i)),
            None => None,
        },
    }
}

} // verus!
