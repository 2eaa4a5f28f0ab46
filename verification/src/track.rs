//! The [`Track`] type: one playable entry of a playlist.

use vstd::prelude::*;

verus! {

/// A single playable track with the details a playlist shows without
/// opening the file.
#[derive(Debug, PartialEq)]
pub struct Track {
    /// Filesystem path of the audio file.
    pub path: String,
    /// Display title.
    pub title: String,
    /// Artist name.
    pub artist: String,
    /// Album name (empty when unknown).
    pub album: String,
    /// Total duration in milliseconds, from the file tags or a header probe.
    pub duration_ms: u64,
}

impl Clone for Track {
    fn clone(&self) -> (r: Track)
        ensures
            r == *self,
    {
        Track {
            path: self.path.clone(),
            title: self.title.clone(),
            artist: self.artist.clone(),
            album: self.album.clone(),
            duration_ms: self.duration_ms,
        }
    }
}

/// Copies a list of tracks, element by element.
pub fn clone_tracks(list: &Vec<Track>) -> (r: Vec<Track>)
    ensures
        r@ == list@,
{
    let mut r: Vec<Track> = Vec::new();
    let mut i: usize = 0;
    while i < list.len()
        invariant
            i <= list@.len(),
            r@ == list@.take(i as int),
        decreases list@.len() - i,
    {
        r.push(list[i].clone());
        i = i + 1;
        assert(r@ =~= list@.take(i as int));
    }
    assert(list@.take(list@.len() as int) =~= list@);
    r
}

} // verus!
