//! The remote-control surface: the commands a media-control connection
//! delivers, the inbox they arrive through, the handler that applies them to
//! the engine, and the interpretation of the textual replies the connection
//! publishes.

use crate::player::Player;
use crate::progress::Model;
use crate::sink::Sink;
use crate::strutil::spec_digits;
use crate::strutil::str_or;
use crate::strutil::u64_to_string;
use vstd::prelude::*;
use vstd::string::StrSliceExecFns;

verus! {

/// A discrete command from the control surface.
#[derive(Clone, Debug, PartialEq)]
pub enum PlayerCommand {
    Play,
    Pause,
    Stop,
    PlayPause,
    Seek(i32),
    Next,
    Previous,
    Load(String),
    Position(i32, u64),
    Metadata(MetaInfo),
}

/// How the playlist repeats.
#[derive(Clone, Copy, PartialEq, Eq, Structural, Debug)]
pub enum RepeatState {
    Off,
    Track,
    All,
    Shuffle,
}

/// Which way a track skip goes.
#[derive(Clone, Copy, PartialEq, Eq, Structural, Debug)]
pub enum TrackState {
    Forword,
    Backword,
}

/// Which metadata item a query asks for.
#[derive(Clone, Copy, PartialEq, Eq, Structural, Debug)]
pub enum MetaInfo {
    Volume,
    Shuffle,
    Position,
    LoopStatus,
    Status,
    Info,
}

/// The aggregated transport state the surface reports.
#[derive(Clone, Copy, PartialEq, Eq, Structural, Debug)]
pub enum Status {
    Running,
    Paused,
    Stopped,
}

/// The current track's metadata as the surface publishes it; each field
/// optional, with a default substituted when absent.
#[derive(Clone, Debug, PartialEq)]
pub struct SongMpris {
    /// Track title.
    pub title: Option<String>,
    /// Track artist.
    pub artist: Option<String>,
    /// Track album.
    pub album: Option<String>,
}

/// Reading the command inbox failed: nothing is pending right now, or the
/// delivering side has gone away.  Degrades the one query, never the engine.
#[derive(Clone, Copy, PartialEq, Eq, Structural, Debug)]
pub enum CommandChannelError {
    Empty,
    Disconnected,
}

/// What handling one command asks of the embedding: nothing more, a resource
/// to open and play, or a reply to publish.
pub enum HandlerAction {
    /// The command was applied to the engine; nothing else to do.
    Handled,
    /// Open this resource, decode it, and hand the track back to `play`.
    LoadRequest(String),
    /// Publish this text on the reply channel.
    ReplyText(String),
    /// Publish this track description on the reply channel.
    ReplySong(SongMpris),
}

/// The engine's end of the control connection: commands delivered by the
/// connection wait here, in arrival order, until the engine polls them.
pub struct DbusMpris {
    /// Commands delivered and not yet polled, oldest first.
    pub inbox: Vec<PlayerCommand>,
    /// Whether the delivering side has gone away.
    pub disconnected: bool,
}

impl DbusMpris {
    /// A fresh, connected, empty inbox.
    pub fn new() -> (r: DbusMpris)
        ensures
            r.inbox@.len() == 0,
            !r.disconnected,
    {
        Self::init()
    }

    /// A fresh, connected, empty inbox; the embedding starts the connection
    /// that will deliver into it.
    pub fn init() -> (r: DbusMpris)
        ensures
            r.inbox@.len() == 0,
            !r.disconnected,
    {
        DbusMpris { inbox: Vec::new(), disconnected: false }
    }

    /// A command arrives from the connection: it waits behind the ones
    /// already pending.
    pub fn deliver(&mut self, cmd: PlayerCommand)
        ensures
            final(self).inbox@ == old(self).inbox@.push(cmd),
            final(self).disconnected == old(self).disconnected,
    {
        self.inbox.push(cmd);
    }

    /// The delivering side goes away; pending commands stay readable.
    pub fn disconnect(&mut self)
        ensures
            final(self).inbox@ == old(self).inbox@,
            final(self).disconnected,
    {
        self.disconnected = true;
    }

    /// Poll one command without waiting.  Hands out the oldest pending
    /// command; with nothing pending the error says whether the connection is
    /// merely idle or gone.
    pub fn next(&mut self) -> (r: Result<PlayerCommand, CommandChannelError>)
        ensures
            old(self).inbox@.len() > 0 ==> {
                &&& r == Ok::<PlayerCommand, CommandChannelError>(old(self).inbox@[0])
                &&& final(self).inbox@ == old(self).inbox@.skip(1)
            },
            old(self).inbox@.len() == 0 ==> {
                &&& final(self).inbox@ == old(self).inbox@
                &&& r == Err::<PlayerCommand, CommandChannelError>(
                    if old(self).disconnected {
                        CommandChannelError::Disconnected
                    } else {
                        CommandChannelError::Empty
                    },
                )
            },
            final(self).disconnected == old(self).disconnected,
    {
        if self.inbox.len() == 0 {
            if self.disconnected {
                Err(CommandChannelError::Disconnected)
            } else {
                Err(CommandChannelError::Empty)
            }
        } else {
            let cmd: PlayerCommand = self.inbox.remove(0);
            proof {
                assert(final(self).inbox@ =~= old(self).inbox@.skip(1));
            }
            Ok(cmd)
        }
    }
}

/// Whether a character is a decimal digit.
pub open spec fn is_digit(c: char) -> bool {
    '0' as int <= c as int && c as int <= '9' as int
}

/// Whether a text is entirely decimal digits.
pub open spec fn all_digits(s: Seq<char>) -> bool {
    forall|i: int| 0 <= i < s.len() ==> is_digit(#[trigger] s[i])
}

/// The number a run of decimal digits denotes, most significant first.
pub open spec fn digits_value(s: Seq<char>) -> int
    decreases s.len(),
{
    if s.len() == 0 {
        0
    } else {
        digits_value(s.drop_last()) * 10 + (s.last() as int - '0' as int)
    }
}

proof fn lemma_digits_value_nonneg(s: Seq<char>)
    requires
        all_digits(s),
    ensures
        digits_value(s) >= 0,
    decreases s.len(),
{
    if s.len() > 0 {
        assert(all_digits(s.drop_last()));
        lemma_digits_value_nonneg(s.drop_last());
        assert(digits_value(s.drop_last()) * 10 >= 0) by (nonlinear_arith)
            requires
                digits_value(s.drop_last()) >= 0,
        ;
        assert(is_digit(s.last()));
    }
}

proof fn lemma_digits_value_prefix(s: Seq<char>, k: int)
    requires
        all_digits(s),
        0 <= k <= s.len(),
    ensures
        digits_value(s.take(k)) <= digits_value(s),
    decreases s.len() - k,
{
    if k == s.len() {
        assert(s.take(k) =~= s);
    } else {
        lemma_digits_value_prefix(s, k + 1);
        assert(s.take(k + 1).drop_last() =~= s.take(k));
        assert(s.take(k + 1).last() == s[k]);
        assert(all_digits(s.take(k)));
        lemma_digits_value_nonneg(s.take(k));
        let v = digits_value(s.take(k));
        assert(v * 10 >= v) by (nonlinear_arith)
            requires
                v >= 0,
        ;
        assert(is_digit(s[k]));
        assert(digits_value(s.take(k + 1)) >= v);
    }
}

/// Parse an unsigned decimal number, as the control surface does with the
/// engine's textual position reply.  Succeeds exactly on a nonempty all-digit
/// text whose value fits the counter width, and then returns that value.
pub fn parse_u64(s: &str) -> (r: Option<u64>)
    ensures
        r is Some <==> s@.len() > 0 && all_digits(s@) && digits_value(s@) <= u64::MAX as int,
        r matches Some(v) ==> v as int == digits_value(s@),
{
    let n: usize = s.unicode_len();
    if n == 0 {
        return None;
    }
    let mut acc: u64 = 0;
    let mut i: usize = 0;
    while i < n
        invariant
            n == s@.len(),
            0 < n,
            i <= n,
            all_digits(s@.take(i as int)),
            acc as int == digits_value(s@.take(i as int)),
        decreases n - i,
    {
        let c: char = s.get_char(i);
        let u: u32 = c as u32;
        if u < 48 || u > 57 {
            proof {
                assert(!is_digit(s@[i as int]));
            }
            return None;
        }
        let d: u64 = (u - 48) as u64;
        proof {
            assert(s@.take(i as int + 1).drop_last() =~= s@.take(i as int));
            assert(s@.take(i as int + 1).last() == s@[i as int]);
            assert(all_digits(s@.take(i as int + 1)));
        }
        if acc > (u64::MAX - d) / 10 {
            proof {
                let q = (u64::MAX - d) as int / 10;
                assert(10 * q + (u64::MAX - d) as int % 10 == (u64::MAX - d) as int);
                assert(acc as int * 10 >= 10 * (q + 1)) by (nonlinear_arith)
                    requires
                        acc as int >= q + 1,
                ;
                assert(digits_value(s@.take(i as int + 1)) > u64::MAX as int);
                if all_digits(s@) {
                    lemma_digits_value_prefix(s@, i as int + 1);
                }
            }
            return None;
        }
        proof {
            let q = (u64::MAX - d) as int / 10;
            assert(10 * q + (u64::MAX - d) as int % 10 == (u64::MAX - d) as int);
            assert(acc as int * 10 <= 10 * q) by (nonlinear_arith)
                requires
                    acc as int <= q,
            ;
        }
        acc = acc * 10 + d;
        i += 1;
    }
    proof {
        assert(s@.take(n as int) =~= s@);
    }
    Some(acc)
}

/// The position figure the surface publishes from the engine's textual
/// reply: the parsed number — zero when the text does not parse — scaled by
/// a thousand into the finer wire unit, saturating at the wire width.
pub open spec fn spec_position_value(s: Seq<char>) -> int {
    let v = if s.len() > 0 && all_digits(s) && digits_value(s) <= u64::MAX as int {
        digits_value(s)
    } else {
        0
    };
    if v * 1000 > i64::MAX as int {
        i64::MAX as int
    } else {
        v * 1000
    }
}

/// Scale the engine's textual position reply to the wire unit.
pub fn position_reply_value(s: &str) -> (r: i64)
    ensures
        r as int == spec_position_value(s@),
{
    match parse_u64(s) {
        Some(v) => {
            let p: u128 = (v as u128) * 1000;
            if p > i64::MAX as u128 {
                i64::MAX
            } else {
                p as i64
            }
        },
        None => {
            proof {
                if s@.len() > 0 && all_digits(s@) {
                    lemma_digits_value_nonneg(s@);
                }
            }
            0
        },
    }
}

/// Whether the engine's textual shuffle reply reads as enabled: exactly the
/// text `true`, anything else meaning disabled.
pub fn shuffle_reply_enabled(s: &str) -> (r: bool)
    ensures
        r <==> s@ == "true"@,
{
    proof {
        reveal_strlit("true");
    }
    let n: usize = s.unicode_len();
    if n != 4 {
        return false;
    }
    let ok: bool = s.get_char(0) == 't' && s.get_char(1) == 'r' && s.get_char(2) == 'u'
        && s.get_char(3) == 'e';
    proof {
        if ok {
            assert(s@ =~= "true"@);
        }
    }
    ok
}

/// The textual transport state the surface publishes for a model: stopped
/// with no current song, else paused or playing by the sink's flag.
pub open spec fn spec_status_text(song: Option<SongMpris>, paused: bool) -> Seq<char> {
    match song {
        Some(_) => if paused {
            "Paused"@
        } else {
            "Playing"@
        },
        None => "Stopped"@,
    }
}

/// The track description the surface publishes: the current song's fields
/// with the documented defaults, or the placeholder entry when nothing is
/// loaded.
pub open spec fn spec_info_title(song: Option<SongMpris>) -> Seq<char> {
    match song {
        Some(s) => str_or(s.title, "Unknown Title"@),
        None => "No current song"@,
    }
}

/// The published artist field, with its default.
pub open spec fn spec_info_artist(song: Option<SongMpris>) -> Seq<char> {
    match song {
        Some(s) => str_or(s.artist, "Unknown Artist"@),
        None => ""@,
    }
}

/// The published album field, with its default.
pub open spec fn spec_info_album(song: Option<SongMpris>) -> Seq<char> {
    match song {
        Some(s) => str_or(s.album, ""@),
        None => ""@,
    }
}

fn or_default<'a>(o: &'a Option<String>, d: &'a str) -> (r: &'a str)
    ensures
        r@ == str_or(*o, d@),
{
    match o {
        Some(s) => s.as_str(),
        None => d,
    }
}

/// Apply one control command to the engine.  Transport commands mutate the
/// player and the reported status; a load request and the metadata queries
/// are answered through the returned action, leaving the engine unchanged.
pub fn mpris_handler(cmd: PlayerCommand, activity: &mut Model) -> (r: HandlerAction)
    requires
        old(activity).player.wf(),
    ensures
        final(activity).player.wf(),
        (cmd == PlayerCommand::Next || cmd == PlayerCommand::Previous) ==> {
            &&& r is Handled
            &&& *final(activity) == (Model { status: Some(Status::Stopped), ..*old(activity) })
        },
        cmd == PlayerCommand::Pause ==> {
            &&& r is Handled
            &&& *final(activity) == (Model {
                player: Player {
                    sink: Sink { paused: true, ..old(activity).player.sink },
                    ..old(activity).player
                },
                ..*old(activity)
            })
        },
        cmd == PlayerCommand::Play ==> {
            &&& r is Handled
            &&& *final(activity) == (Model {
                player: Player {
                    sink: Sink { paused: false, ..old(activity).player.sink },
                    ..old(activity).player
                },
                ..*old(activity)
            })
        },
        cmd == PlayerCommand::PlayPause ==> {
            &&& r is Handled
            &&& *final(activity) == (Model {
                status: Some(
                    if old(activity).player.sink.paused {
                        Status::Running
                    } else {
                        Status::Paused
                    },
                ),
                player: Player {
                    sink: Sink {
                        paused: !old(activity).player.sink.paused,
                        ..old(activity).player.sink
                    },
                    ..old(activity).player
                },
                ..*old(activity)
            })
        },
        cmd == PlayerCommand::Stop ==> r is Handled && *final(activity) == *old(activity),
        cmd matches PlayerCommand::Seek(x) ==> {
            &&& r is Handled
            &&& *final(activity) == (Model {
                player: if x > 0 {
                    old(activity).player.spec_after_seek_fw()
                } else {
                    old(activity).player.spec_after_seek_bw()
                },
                ..*old(activity)
            })
        },
        cmd matches PlayerCommand::Position(t, p) ==> r is Handled && *final(activity)
            == *old(activity),
        cmd matches PlayerCommand::Load(uri) ==> r == HandlerAction::LoadRequest(uri)
            && *final(activity) == *old(activity),
        cmd matches PlayerCommand::Metadata(info) ==> {
            &&& *final(activity) == *old(activity)
            &&& info == MetaInfo::LoopStatus ==> (r matches HandlerAction::ReplyText(t) && t@
                == "None"@)
            &&& info == MetaInfo::Status ==> (r matches HandlerAction::ReplyText(t) && t@
                == spec_status_text(old(activity).current_song, old(activity).player.sink.paused))
            &&& info == MetaInfo::Shuffle ==> (r matches HandlerAction::ReplyText(t) && t@
                == "false"@)
            &&& info == MetaInfo::Position ==> (r matches HandlerAction::ReplyText(t) && t@
                == spec_digits(old(activity).player.sink.elapsed as nat))
            &&& info == MetaInfo::Volume ==> (r matches HandlerAction::ReplyText(t) && t@ == "75"@)
            &&& info == MetaInfo::Info ==> (r matches HandlerAction::ReplySong(s) && {
                &&& s.title matches Some(t) && t@ == spec_info_title(old(activity).current_song)
                &&& s.artist matches Some(a) && a@ == spec_info_artist(old(activity).current_song)
                &&& s.album matches Some(b) && b@ == spec_info_album(old(activity).current_song)
            })
        },
{
    match cmd {
        PlayerCommand::Next | PlayerCommand::Previous => {
            activity.status = Some(Status::Stopped);
            HandlerAction::Handled
        },
        PlayerCommand::Pause => {
            activity.player.pause();
            HandlerAction::Handled
        },
        PlayerCommand::PlayPause => {
            if activity.player.is_paused() {
                activity.status = Some(Status::Running);
                activity.player.resume();
            } else {
                activity.status = Some(Status::Paused);
                activity.player.pause();
            }
            HandlerAction::Handled
        },
        PlayerCommand::Stop => HandlerAction::Handled,
        PlayerCommand::Play => {
            activity.player.resume();
            HandlerAction::Handled
        },
        PlayerCommand::Seek(x) => {
            let _ = activity.player.seek(x as i64);
            HandlerAction::Handled
        },
        PlayerCommand::Position(_track_id, _position) => HandlerAction::Handled,
        PlayerCommand::Load(uri) => HandlerAction::LoadRequest(uri),
        PlayerCommand::Metadata(info) => {
            match info {
                MetaInfo::LoopStatus => HandlerAction::ReplyText("None".to_owned()),
                MetaInfo::Status => {
                    let text: &str = match &activity.current_song {
                        Some(_) => if activity.player.is_paused() {
                            "Paused"
                        } else {
                            "Playing"
                        },
                        None => "Stopped",
                    };
                    HandlerAction::ReplyText(text.to_owned())
                },
                MetaInfo::Shuffle => HandlerAction::ReplyText("false".to_owned()),
                MetaInfo::Position => {
                    let progress: (u64, u64, u64) = activity.player.get_progress();
                    HandlerAction::ReplyText(u64_to_string(progress.1))
                },
                MetaInfo::Info => {
                    let song: SongMpris = match &activity.current_song {
                        Some(song) => SongMpris {
                            title: Some(or_default(&song.title, "Unknown Title").to_owned()),
                            artist: Some(or_default(&song.artist, "Unknown Artist").to_owned()),
                            album: Some(or_default(&song.album, "").to_owned()),
                        },
                        None => SongMpris {
                            title: Some("No current song".to_owned()),
                            artist: Some("".to_owned()),
                            album: Some("".to_owned()),
                        },
                    };
                    HandlerAction::ReplySong(song)
                },
                MetaInfo::Volume => HandlerAction::ReplyText("75".to_owned()),
            }
        },
    }
}

} // verus!
