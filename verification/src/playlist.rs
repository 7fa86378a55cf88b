//! The playlist: an ordered list of tracks and a cursor that wraps.

use vstd::prelude::*;
use vstd::arithmetic::div_mod::{
    lemma_fundamental_div_mod, lemma_fundamental_div_mod_converse, lemma_mod_add_multiples_vanish,
    lemma_mod_bound, lemma_mod_sub_multiples_vanish, lemma_small_mod,
};
use vstd::pervasive::unreached;
use crate::paths::{file_name_of, has_supported_extension, path_file_name, supported};
use crate::text::{string_texts, texts};

verus! {

/// A playlist as a value: the paths of its tracks, in order, and the
/// position of the current one.
pub struct Playlist {
    pub tracks: Seq<Seq<char>>,
    pub cursor: int,
}

impl Playlist {
    /// There is a track, and the cursor stands on one.
    pub open spec fn wf(self) -> bool {
        0 <= self.cursor < self.tracks.len()
    }

    /// The path of the current track.
    pub open spec fn current(self) -> Seq<char> {
        self.tracks[self.cursor]
    }

    /// The playlist with the cursor one track on, the first track following
    /// the last.
    pub open spec fn advanced(self) -> Playlist {
        Playlist { tracks: self.tracks, cursor: (self.cursor + 1) % (self.tracks.len() as int) }
    }

    /// The playlist with the cursor one track back, the last track
    /// preceding the first.
    pub open spec fn retreated(self) -> Playlist {
        Playlist {
            tracks: self.tracks,
            cursor: if self.cursor == 0 {
                self.tracks.len() - 1
            } else {
                self.cursor - 1
            },
        }
    }

    /// The playlist after `n` steps forward.
    pub open spec fn advanced_by(self, n: nat) -> Playlist
        decreases n,
    {
        if n == 0 {
            self
        } else {
            self.advanced_by((n - 1) as nat).advanced()
        }
    }

    /// The playlist after `n` steps back.
    pub open spec fn retreated_by(self, n: nat) -> Playlist
        decreases n,
    {
        if n == 0 {
            self
        } else {
            self.retreated_by((n - 1) as nat).retreated()
        }
    }
}

/// One more than `x` leaves, on division by `m`, the remainder that
/// follows that of `x`, with 0 following `m - 1`.
pub proof fn lemma_cursor_successor(x: int, m: int)
    requires
        m > 0,
    ensures
        0 <= x % m < m,
        (x + 1) % m == if x % m == m - 1 {
            0
        } else {
            x % m + 1
        },
{
    lemma_fundamental_div_mod(x, m);
    lemma_mod_bound(x, m);
    let q = x / m;
    let r = x % m;
    if r == m - 1 {
        assert(x + 1 == (q + 1) * m + 0) by (nonlinear_arith)
            requires
                x == m * q + r,
                r == m - 1,
        ;
        lemma_fundamental_div_mod_converse(x + 1, m, q + 1, 0);
    } else {
        assert(x + 1 == q * m + (r + 1)) by (nonlinear_arith)
            requires
                x == m * q + r,
        ;
        lemma_fundamental_div_mod_converse(x + 1, m, q, r + 1);
    }
}

/// One less than `x` leaves, on division by `m`, the remainder that
/// precedes that of `x`, with `m - 1` preceding 0.
proof fn lemma_cursor_predecessor(x: int, m: int)
    requires
        m > 0,
    ensures
        0 <= x % m < m,
        (x - 1) % m == if x % m == 0 {
            m - 1
        } else {
            x % m - 1
        },
{
    lemma_cursor_successor(x - 1, m);
}

/// `n` steps forward move the cursor by `n`, counted round the list.
pub proof fn lemma_advanced_by(p: Playlist, n: nat)
    requires
        p.wf(),
    ensures
        p.advanced_by(n).tracks == p.tracks,
        p.advanced_by(n).cursor == (p.cursor + n) % (p.tracks.len() as int),
    decreases n,
{
    let len = p.tracks.len() as int;
    if n == 0 {
        lemma_small_mod(p.cursor as nat, len as nat);
    } else {
        lemma_advanced_by(p, (n - 1) as nat);
        lemma_cursor_successor(p.cursor + n - 1, len);
        lemma_cursor_successor(p.advanced_by((n - 1) as nat).cursor, len);
        lemma_small_mod(p.advanced_by((n - 1) as nat).cursor as nat, len as nat);
    }
}

/// `n` steps back move the cursor by `n` the other way, counted round the
/// list.
pub proof fn lemma_retreated_by(p: Playlist, n: nat)
    requires
        p.wf(),
    ensures
        p.retreated_by(n).tracks == p.tracks,
        p.retreated_by(n).cursor == (p.cursor - n) % (p.tracks.len() as int),
    decreases n,
{
    let len = p.tracks.len() as int;
    if n == 0 {
        lemma_small_mod(p.cursor as nat, len as nat);
    } else {
        lemma_retreated_by(p, (n - 1) as nat);
        lemma_cursor_predecessor(p.cursor - (n - 1), len);
    }
}

/// As many steps forward as there are tracks bring the cursor back to
/// where it was.
pub proof fn lemma_advance_cycles(p: Playlist)
    requires
        p.wf(),
    ensures
        p.advanced_by(p.tracks.len()) == p,
{
    let len = p.tracks.len() as int;
    lemma_advanced_by(p, p.tracks.len());
    lemma_mod_add_multiples_vanish(p.cursor, len);
    lemma_small_mod(p.cursor as nat, len as nat);
}

/// As many steps back as there are tracks bring the cursor back to where
/// it was.
pub proof fn lemma_retreat_cycles(p: Playlist)
    requires
        p.wf(),
    ensures
        p.retreated_by(p.tracks.len()) == p,
{
    let len = p.tracks.len() as int;
    lemma_retreated_by(p, p.tracks.len());
    lemma_mod_sub_multiples_vanish(p.cursor, len);
    lemma_small_mod(p.cursor as nat, len as nat);
}

/// A step forward and then a step back leave the cursor where it was.
pub proof fn lemma_retreat_undoes_advance(p: Playlist)
    requires
        p.wf(),
    ensures
        p.advanced().wf(),
        p.advanced().retreated() == p,
{
    let len = p.tracks.len() as int;
    lemma_cursor_successor(p.cursor, len);
    lemma_small_mod(p.cursor as nat, len as nat);
}

/// A step back and then a step forward leave the cursor where it was.
pub proof fn lemma_advance_undoes_retreat(p: Playlist)
    requires
        p.wf(),
    ensures
        p.retreated().wf(),
        p.retreated().advanced() == p,
{
    let len = p.tracks.len() as int;
    lemma_cursor_successor(p.retreated().cursor, len);
    lemma_small_mod(p.retreated().cursor as nat, len as nat);
}

/// One entry of a directory: its path, and whether it is a regular file.
#[derive(Debug)]
pub struct Entry {
    pub path: String,
    pub is_file: bool,
}

/// What a look at the music directory gave.
#[derive(Debug)]
pub enum Listing {
    /// The path does not lead to a directory.
    NotADirectory,
    /// The entries of the directory, in the order in which it gave them.
    Directory(Vec<Entry>),
}

/// Why no playlist could be made.
#[derive(Clone, Copy, Debug, PartialEq, Eq, Structural)]
pub enum ConstructionError {
    /// The music directory is no directory.
    NotADirectory,
    /// The music directory holds no file of a supported kind.
    NoSupportedFiles,
}

impl ConstructionError {
    /// The words for the error.
    pub open spec fn text(self) -> Seq<char> {
        match self {
            ConstructionError::NotADirectory => "Path is not a directory"@,
            ConstructionError::NoSupportedFiles => "No supported audio files found"@,
        }
    }

    /// The error in words.
    pub fn message(&self) -> (words: &'static str)
        ensures
            words@ == self.text(),
    {
        match self {
            ConstructionError::NotADirectory => "Path is not a directory",
            ConstructionError::NoSupportedFiles => "No supported audio files found",
        }
    }
}

/// The extensions of the files that can be played, in lower case.
pub open spec fn supported_extensions() -> Seq<Seq<char>> {
    seq!["mp3"@, "wav"@, "flac"@, "ogg"@, "aac"@, "m4a"@]
}

/// Whether an entry goes into the playlist: it is a regular file, and its
/// extension is a supported one in any letter case.
pub open spec fn playable(entry: Entry) -> bool {
    entry.is_file && supported(entry.path@, supported_extensions())
}

/// The paths of the playable entries, in the order of the entries.
pub open spec fn playable_paths(entries: Seq<Entry>) -> Seq<Seq<char>>
    decreases entries.len(),
{
    if entries.len() == 0 {
        Seq::empty()
    } else {
        let before = playable_paths(entries.drop_last());
        if playable(entries.last()) {
            before.push(entries.last().path@)
        } else {
            before
        }
    }
}

/// A path is in the playlist exactly if it is the path of a playable entry,
/// and the playlist is no longer than the listing.
pub proof fn lemma_playable_paths_are_the_playable(entries: Seq<Entry>, path: Seq<char>)
    ensures
        playable_paths(entries).len() <= entries.len(),
        playable_paths(entries).contains(path) <==> exists|i: int|
            0 <= i < entries.len() && playable(#[trigger] entries[i]) && entries[i].path@ == path,
    decreases entries.len(),
{
    if entries.len() > 0 {
        let front = entries.drop_last();
        let before = playable_paths(front);
        let all = playable_paths(entries);
        lemma_playable_paths_are_the_playable(front, path);
        let is_it = |e: Entry| playable(e) && e.path@ == path;
        if exists|i: int| 0 <= i < entries.len() && is_it(#[trigger] entries[i]) {
            let i = choose|i: int| 0 <= i < entries.len() && is_it(#[trigger] entries[i]);
            if i < front.len() {
                assert(is_it(front[i]));
                let k = choose|k: int| 0 <= k < before.len() && before[k] == path;
                assert(all[k] == path);
            } else {
                assert(all[before.len() as int] == path);
            }
        }
    }
}

/// A listing gives no track exactly if none of its entries is playable: an
/// empty directory gives none, and so does one that holds only folders and
/// files of other kinds.
pub proof fn lemma_no_tracks_without_playable(entries: Seq<Entry>)
    ensures
        playable_paths(entries).len() == 0 <==> forall|i: int|
            0 <= i < entries.len() ==> !playable(#[trigger] entries[i]),
    decreases entries.len(),
{
    if entries.len() > 0 {
        let front = entries.drop_last();
        lemma_no_tracks_without_playable(front);
        assert forall|i: int| 0 <= i < front.len() implies front[i] == entries[i] by {}
    }
}

/// The playlist that a listing gives, or the reason why it gives none.
pub open spec fn playlist_of(listing: Listing) -> Result<Playlist, ConstructionError> {
    match listing {
        Listing::NotADirectory => Err(ConstructionError::NotADirectory),
        Listing::Directory(entries) => if playable_paths(entries@).len() == 0 {
            Err(ConstructionError::NoSupportedFiles)
        } else {
            Ok(Playlist { tracks: playable_paths(entries@), cursor: 0 })
        },
    }
}

/// The playlist engine: the tracks found at startup, which never change,
/// and the cursor.
#[derive(Debug)]
pub struct MusicPlayer {
    files: Vec<String>,
    current_index: usize,
}

impl View for MusicPlayer {
    type V = Playlist;

    closed spec fn view(&self) -> Playlist {
        Playlist { tracks: string_texts(self.files@), cursor: self.current_index as int }
    }
}

impl MusicPlayer {
    /// The list is not empty, the cursor stands on a track, and every track
    /// has a file name.
    #[verifier::type_invariant]
    spec fn inv(&self) -> bool {
        &&& self.current_index < self.files@.len()
        &&& forall|i: int| 0 <= i < self.files@.len() ==> path_file_name(#[trigger] self.files@[i]@) is Some
    }

    /// The extensions of the files that can be played.
    fn extensions() -> (list: Vec<&'static str>)
        ensures
            texts(list@) == supported_extensions(),
    {
        let mut list: Vec<&'static str> = Vec::new();
        list.push("mp3");
        list.push("wav");
        list.push("flac");
        list.push("ogg");
        list.push("aac");
        list.push("m4a");
        list
    }

    /// Makes the playlist of a directory: its regular files with a
    /// supported extension, in the order of the listing, the cursor on the
    /// first. Fails where there is no directory, and where the directory
    /// holds no such file.
    pub fn new(listing: Listing) -> (made: Result<MusicPlayer, ConstructionError>)
        ensures
            match made {
                Ok(player) => playlist_of(listing) == Ok::<Playlist, ConstructionError>(player@) && player@.wf(),
                Err(error) => playlist_of(listing) == Err::<Playlist, ConstructionError>(error),
            },
    {
        let entries = match listing {
            Listing::NotADirectory => {
                return Err(ConstructionError::NotADirectory);
            },
            Listing::Directory(entries) => entries,
        };
        let extensions = MusicPlayer::extensions();
        let mut files: Vec<String> = Vec::new();
        let mut i: usize = 0;
        while i < entries.len()
            invariant
                i <= entries@.len(),
                texts(extensions@) == supported_extensions(),
                string_texts(files@) == playable_paths(entries@.take(i as int)),
                forall|j: int| 0 <= j < files@.len() ==> path_file_name(#[trigger] files@[j]@) is Some,
            decreases entries@.len() - i,
        {
            assert(entries@.take(i + 1).drop_last() =~= entries@.take(i as int));
            let entry = &entries[i];
            if entry.is_file && has_supported_extension(entry.path.as_str(), extensions.as_slice()) {
                files.push(entry.path.clone());
            }
            i += 1;
        }
        assert(entries@.take(i as int) =~= entries@);
        if files.len() == 0 {
            return Err(ConstructionError::NoSupportedFiles);
        }
        Ok(MusicPlayer { files, current_index: 0 })
    }

    /// How many tracks there are.
    pub fn len(&self) -> (n: usize)
        ensures
            n == self@.tracks.len(),
            self@.wf(),
    {
        proof {
            use_type_invariant(self);
        }
        self.files.len()
    }

    /// The position of the current track.
    pub fn cursor(&self) -> (at: usize)
        ensures
            at == self@.cursor,
            self@.wf(),
    {
        proof {
            use_type_invariant(self);
        }
        self.current_index
    }

    /// The path of the current track.
    pub fn current_path(&self) -> (path: &str)
        ensures
            path@ == self@.current(),
    {
        proof {
            use_type_invariant(self);
        }
        self.files[self.current_index].as_str()
    }

    /// The file name of the current track: the last component of its path.
    pub fn current_track(&self) -> (name: String)
        ensures
            path_file_name(self@.current()) == Some(name@),
    {
        proof {
            use_type_invariant(self);
        }
        match file_name_of(self.files[self.current_index].as_str()) {
            Some(name) => name,
            None => unreached(),
        }
    }

    /// Moves the cursor to the next track; after the last comes the first.
    pub fn next(&mut self)
        ensures
            old(self)@.wf(),
            final(self)@ == old(self)@.advanced(),
            final(self)@.wf(),
    {
        proof {
            use_type_invariant(&*self);
        }
        let len = self.files.len();
        self.current_index = if self.current_index == len - 1 {
            0
        } else {
            self.current_index + 1
        };
        proof {
            lemma_cursor_successor(old(self).current_index as int, len as int);
            lemma_small_mod(old(self).current_index as nat, len as nat);
        }
    }

    /// Moves the cursor to the track before; before the first comes the
    /// last.
    pub fn prev(&mut self)
        ensures
            old(self)@.wf(),
            final(self)@ == old(self)@.retreated(),
            final(self)@.wf(),
    {
        proof {
            use_type_invariant(&*self);
        }
        self.current_index = if self.current_index == 0 {
            self.files.len() - 1
        } else {
            self.current_index - 1
        };
    }
}

} // verus!
