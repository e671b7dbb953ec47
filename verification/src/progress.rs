//! The progress display model: what the progress bar shows — title, fill
//! percentage and the elapsed/total text — and how a progress poll updates
//! it.  The drawing itself is the display collaborator's business; this
//! module owns the displayed values.

use crate::mpris::SongMpris;
use crate::mpris::Status;
use crate::player::Config;
use crate::player::Player;
use crate::strutil::spec_digits;
use crate::strutil::spec_mmss;
use crate::strutil::spec_truncated;
use crate::strutil::str_or;
use crate::strutil::duration_formatted_short;
use crate::strutil::truncate_chars;
use crate::strutil::u64_to_string;
use vstd::prelude::*;
use vstd::string::StringExecFns;

verus! {

/// How many characters of the artist and title names the bar title shows.
pub const TITLE_NAME_CHARS: usize = 20;

/// What the progress bar displays.
pub struct Progress {
    /// The bar title: who and what is playing, at which volume.
    pub title: String,
    /// The fill, in integer percent.
    pub percent: u64,
    /// The elapsed-and-total clock text.
    pub text: String,
    /// The widget label.
    pub label: String,
}

impl Progress {
    /// A freshly mounted bar: empty fill, the placeholder label and title.
    pub fn new() -> (r: Progress)
        ensures
            r.percent == 0,
            r.title@ == "Playing"@,
            r.label@ == "Song Name"@,
            r.text@.len() == 0,
    {
        Progress {
            title: "Playing".to_owned(),
            percent: 0,
            text: String::new(),
            label: "Song Name".to_owned(),
        }
    }
}

/// The bar title composed for a song at a volume: both names cut to the
/// displayed width, with the documented defaults for missing fields.
pub open spec fn spec_progress_title(song: SongMpris, volume: nat) -> Seq<char> {
    "Playing: "@ + spec_truncated(str_or(song.artist, "Unknown Artist"@), TITLE_NAME_CHARS as nat)
        + " - "@ + spec_truncated(str_or(song.title, "Unknown Title"@), TITLE_NAME_CHARS as nat)
        + " | Volume: "@ + spec_digits(volume)
}

/// The clock text under the bar: elapsed, a fixed separator, total.
pub open spec fn spec_progress_text(pos: nat, dur: nat) -> Seq<char> {
    spec_mmss(pos) + "    -    "@ + spec_mmss(dur)
}

/// The application state the display and the control surface share: the
/// engine, what is known of the current song, the reported transport status,
/// and the progress display.
pub struct Model {
    /// The playback engine.
    pub player: Player,
    /// The current song's metadata, when one is loaded.
    pub current_song: Option<SongMpris>,
    /// The transport status the surface last reported.
    pub status: Option<Status>,
    /// The last whole time position shown.
    pub time_pos: u64,
    /// The engine configuration.
    pub config: Config,
    /// The progress display.
    pub progress: Progress,
}

impl Model {
    /// Remount the progress bar: the display resets to its fresh state and
    /// the title is composed anew from the current song and volume.
    pub fn progress_reload(&mut self)
        requires
            old(self).player.wf(),
        ensures
            final(self).player.wf(),
            final(self).progress.percent == 0,
            final(self).progress.label@ == "Song Name"@,
            final(self).progress.text@.len() == 0,
            final(self).progress.title@ == (match old(self).current_song {
                Some(song) => spec_progress_title(song, old(self).config.volume as nat),
                None => "Playing"@,
            }),
            final(self).player == old(self).player,
            final(self).current_song == old(self).current_song,
            final(self).status == old(self).status,
            final(self).time_pos == old(self).time_pos,
            final(self).config == old(self).config,
    {
        self.progress = Progress::new();
        self.progress_update_title();
    }

    /// Compose the bar title from the current song and the configured
    /// volume; with no current song the title is left as it is.
    pub fn progress_update_title(&mut self)
        requires
            old(self).player.wf(),
        ensures
            final(self).player.wf(),
            final(self).progress.title@ == (match old(self).current_song {
                Some(song) => spec_progress_title(song, old(self).config.volume as nat),
                None => old(self).progress.title@,
            }),
            final(self).progress.percent == old(self).progress.percent,
            final(self).progress.text == old(self).progress.text,
            final(self).progress.label == old(self).progress.label,
            final(self).player == old(self).player,
            final(self).current_song == old(self).current_song,
            final(self).status == old(self).status,
            final(self).time_pos == old(self).time_pos,
            final(self).config == old(self).config,
    {
        let artist: String = match &self.current_song {
            Some(song) => match &song.artist {
                Some(a) => a.clone(),
                None => "Unknown Artist".to_owned(),
            },
            None => {
                return ;
            },
        };
        let title: String = match &self.current_song {
            Some(song) => match &song.title {
                Some(t) => t.clone(),
                None => "Unknown Title".to_owned(),
            },
            None => {
                return ;
            },
        };
        let mut composed: String = "Playing: ".to_owned();
        let short_artist: String = truncate_chars(artist.as_str(), TITLE_NAME_CHARS);
        composed.append(short_artist.as_str());
        composed.append(" - ");
        let short_title: String = truncate_chars(title.as_str(), TITLE_NAME_CHARS);
        composed.append(short_title.as_str());
        composed.append(" | Volume: ");
        let vol: String = u64_to_string(self.config.volume as u64);
        composed.append(vol.as_str());
        proof {
            let song = old(self).current_song->Some_0;
            assert(composed@ =~= spec_progress_title(song, old(self).config.volume as nat));
        }
        self.progress.title = composed;
    }

    /// Apply one progress poll to the display.  A zero total marks an
    /// unsupported resource: nothing updates.  A position at or past the
    /// total marks track completion: only the transport status moves to
    /// stopped, and the caller advances the playlist.  Otherwise the shown
    /// position, fill and clock text follow the poll.
    pub fn progress_update(&mut self)
        requires
            old(self).player.wf(),
        ensures
            final(self).player.wf(),
            ({
                let percent = old(self).player.spec_percent();
                let pos = old(self).player.sink.elapsed;
                let dur = (match old(self).player.total_duration {
                    Some(d) => d,
                    None => crate::player::UNKNOWN_DURATION,
                });
                if dur == 0 {
                    *final(self) == *old(self)
                } else if pos >= dur {
                    *final(self) == (Model { status: Some(Status::Stopped), ..*old(self) })
                } else {
                    &&& final(self).time_pos == pos
                    &&& final(self).progress.percent as int == percent
                    &&& final(self).progress.text@ == spec_progress_text(pos as nat, dur as nat)
                    &&& final(self).progress.title == old(self).progress.title
                    &&& final(self).progress.label == old(self).progress.label
                    &&& final(self).player == old(self).player
                    &&& final(self).current_song == old(self).current_song
                    &&& final(self).status == old(self).status
                    &&& final(self).config == old(self).config
                }
            }),
    {
        let progress: (u64, u64, u64) = self.player.get_progress();
        let new_prog: u64 = progress.0;
        let time_pos: u64 = progress.1;
        let duration: u64 = progress.2;
        if duration == 0 {
            return ;
        }
        if time_pos >= duration {
            self.status = Some(Status::Stopped);
            return ;
        }
        self.time_pos = time_pos;
        self.progress.percent = new_prog;
        let mut text: String = duration_formatted_short(time_pos);
        text.append("    -    ");
        let total: String = duration_formatted_short(duration);
        text.append(total.as_str());
        proof {
            assert(text@ =~= spec_progress_text(time_pos as nat, duration as nat));
        }
        self.progress.text = text;
    }
}

} // verus!
