//! Decision logic over environment listings.
//!
//! The platform hands the caller plain listings: one entry per visible window
//! (identifier, owning process id, identifying text) and one entry per active
//! audio stream (identifying text, live flag, corked flag). The functions here
//! answer, from such a listing alone, whether the monitored application's
//! window is present and whether the application is playing audible, unpaused
//! output.

use vstd::prelude::*;
use crate::matching::ci_matches;
use crate::matching::identifier_matches;

verus! {

/// One visible window as the platform reports it: its window identifier, the
/// process id that owns it, and whatever identifying text (title or class)
/// the platform exposes for it.
#[derive(Clone, Debug, PartialEq, Eq)]
pub struct WindowEntry {
    pub id: u64,
    pub pid: u32,
    pub text: Vec<u8>,
}

/// One active audio output stream as the platform reports it: identifying
/// text, whether it is flagged as a live stream, and whether it is corked
/// (paused).
#[derive(Clone, Debug, PartialEq, Eq)]
pub struct AudioStream {
    pub text: Vec<u8>,
    pub live: bool,
    pub corked: bool,
}

/// A window entry belongs to the monitored application: it is owned by the
/// given process id and its identifying text matches the application
/// identifier case-insensitively.
pub open spec fn entry_matches(e: WindowEntry, ident: Seq<u8>, pid: u32) -> bool {
    e.pid == pid && ci_matches(e.text@, ident)
}

/// Some entry of the window listing belongs to the monitored application.
pub open spec fn some_entry_matches(entries: Seq<WindowEntry>, ident: Seq<u8>, pid: u32) -> bool {
    exists|i: int| 0 <= i < entries.len() && entry_matches(entries[i], ident, pid)
}

/// An audio stream is audible output of the monitored application: its text
/// matches the identifier case-insensitively, it is live, and it is not
/// corked. All three must hold of the same stream.
pub open spec fn stream_is_audible(s: AudioStream, ident: Seq<u8>) -> bool {
    ci_matches(s.text@, ident) && s.live && !s.corked
}

/// Some stream of the audio listing is audible output of the application.
pub open spec fn some_stream_audible(streams: Seq<AudioStream>, ident: Seq<u8>) -> bool {
    exists|i: int| 0 <= i < streams.len() && stream_is_audible(streams[i], ident)
}

/// Whether the monitored application's window is present in the listing.
pub fn window_exists(entries: &Vec<WindowEntry>, ident: &Vec<u8>, pid: u32) -> (r: bool)
    ensures
        r == some_entry_matches(entries@, ident@, pid),
{
    let mut i: usize = 0;
    while i < entries.len()
        invariant
            i <= entries@.len(),
            forall|k: int| 0 <= k < i ==> !entry_matches(entries@[k], ident@, pid),
        decreases entries@.len() - i,
    {
        let e = &entries[i];
        if e.pid == pid && identifier_matches(&e.text, ident) {
            assert(entry_matches(entries@[i as int], ident@, pid));
            return true;
        }
        i = i + 1;
    }
    false
}

/// Finds the monitored application's window in the listing and returns its
/// window identifier; `None` when no entry matches. When several entries
/// match, the first one wins.
pub fn find_window_id(entries: &Vec<WindowEntry>, ident: &Vec<u8>, pid: u32) -> (r: Option<u64>)
    ensures
        r is Some <==> some_entry_matches(entries@, ident@, pid),
        r is Some ==> exists|i: int|
            0 <= i < entries@.len()
            && entry_matches(entries@[i], ident@, pid)
            && r == Some(entries@[i].id)
            && (forall|k: int| 0 <= k < i ==> !entry_matches(entries@[k], ident@, pid)),
{
    let mut i: usize = 0;
    while i < entries.len()
        invariant
            i <= entries@.len(),
            forall|k: int| 0 <= k < i ==> !entry_matches(entries@[k], ident@, pid),
        decreases entries@.len() - i,
    {
        let e = &entries[i];
        if e.pid == pid && identifier_matches(&e.text, ident) {
            assert(entry_matches(entries@[i as int], ident@, pid));
            return Some(e.id);
        }
        i = i + 1;
    }
    None
}

/// Whether the monitored application is currently producing audible, unpaused
/// output according to the stream listing.
pub fn is_playing_audio(streams: &Vec<AudioStream>, ident: &Vec<u8>) -> (r: bool)
    ensures
        r == some_stream_audible(streams@, ident@),
{
    let mut i: usize = 0;
    while i < streams.len()
        invariant
            i <= streams@.len(),
            forall|k: int| 0 <= k < i ==> !stream_is_audible(streams@[k], ident@),
        decreases streams@.len() - i,
    {
        let s = &streams[i];
        if s.live && !s.corked && identifier_matches(&s.text, ident) {
            assert(stream_is_audible(streams@[i as int], ident@));
            return true;
        }
        i = i + 1;
    }
    false
}

} // verus!
