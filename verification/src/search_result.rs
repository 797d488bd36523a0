//! A directory search: the session that the foreign side keeps in a buffer of the
//! caller, from the first match to its close.

use vstd::prelude::*;
use crate::call::Call;
use crate::error::Error;
use crate::file_manager::{GFXFileManager, ManagerView};
use crate::layout::{le_u32, read_u32};
use crate::registry::{next_slot, next_slot_was_free, taken};
use crate::result_entry::{entry_of, ResultEntry, ENTRY_BYTES};
use crate::text::{c_string, sendable, wire};

verus! {

/// The size in bytes of the buffer of one search session.
pub const SESSION_BYTES: usize = 0x390;

/// The offset of the platform search handle in the buffer of a session.
pub const SESSION_HANDLE_AT: usize = 0x388;

/// A search session.
///
/// A session begins with the first match and is advanced in place. That a search
/// found nothing, or has come to its end, does not close it: it is closed by
/// `close`, once, whatever it found.
#[derive(Debug)]
pub struct SearchResult {
    session: usize,
    success: u8,
    h_find: u32,
    open: bool,
}

/// A search session as plain values.
pub struct SearchView {
    /// The slot under which the container keeps the session.
    pub session: usize,
    /// The success flag that the first search left in the buffer.
    pub success: u8,
    /// The platform search handle that the first search left in the buffer.
    pub h_find: u32,
    /// Whether the session has not been closed through this value.
    pub open: bool,
}

impl View for SearchResult {
    type V = SearchView;

    closed spec fn view(&self) -> SearchView {
        SearchView {
            session: self.session,
            success: self.success,
            h_find: self.h_find,
            open: self.open,
        }
    }
}

/// Whether a session may be advanced or closed on the foreign side: it was not
/// closed through its value, and the container holds its slot.
pub open spec fn live(search: SearchView, m: ManagerView) -> bool {
    &&& search.open
    &&& search.session < m.searches.len()
    &&& m.searches[search.session as int]
}

/// The call that closing `search` leads to: the release of its session, where the
/// session is live; else none. Whether the search found a match plays no part.
pub open spec fn close_call(search: SearchView, m: ManagerView) -> Option<Call> {
    if live(search, m) {
        Some(Call::CloseSearchResult { session: search.session })
    } else {
        None
    }
}

/// A search session after its close.
pub open spec fn closed(search: SearchView) -> SearchView {
    SearchView { open: false, ..search }
}

/// The books `m` after the close of `search`: the slot of a live session is freed.
pub open spec fn after_close(search: SearchView, m: ManagerView) -> ManagerView {
    if live(search, m) {
        ManagerView { searches: m.searches.update(search.session as int, false), ..m }
    } else {
        m
    }
}

/// Closing a search session a second time leads to no call and changes nothing.
pub proof fn close_again_is_idle(search: SearchView, m: ManagerView)
    ensures
        close_call(closed(search), after_close(search, m)) is None,
        closed(closed(search)) == closed(search),
        after_close(closed(search), after_close(search, m)) == after_close(search, m),
{
}

/// A session that was taken up and not closed since is live, whatever its search
/// found, and its close leads to the release of its slot: whatever was in the
/// books `m` when the first search answered, the session is closed by exactly one
/// call, and the sessions in the other slots stay as they were.
pub proof fn taken_session_is_closed_once(m: ManagerView, success: u8, h_find: u32)
    requires
        m.searches.len() <= usize::MAX,
    ensures
        ({
            let slot = next_slot(m.searches);
            let search = SearchView { session: slot as usize, success, h_find, open: true };
            let after_first = ManagerView { searches: taken(m.searches, slot), ..m };
            &&& live(search, after_first)
            &&& close_call(search, after_first) == Some(
                Call::CloseSearchResult { session: slot as usize },
            )
            &&& close_call(closed(search), after_close(search, after_first)) is None
            &&& forall|j: int|
                0 <= j < m.searches.len() && j != slot ==> after_close(
                    search,
                    after_first,
                ).searches[j] == m.searches[j]
        }),
{
    next_slot_was_free(m.searches);
}

/// A session is closed on the foreign side whether or not its search found a
/// match: two live sessions in the same slot lead to the same call.
pub proof fn close_ignores_success(search: SearchView, success: u8, m: ManagerView)
    ensures
        close_call(SearchView { success, ..search }, m) == close_call(search, m),
        after_close(SearchView { success, ..search }, m) == after_close(search, m),
{
}

impl SearchResult {
    /// Whether the first search found a match.
    pub fn success(&self) -> (b: bool)
        ensures
            b == (self@.success != 0),
    {
        self.success != 0
    }

    /// The platform search handle of the session.
    pub fn h_find(&self) -> (h: u32)
        ensures
            h == self@.h_find,
    {
        self.h_find
    }

    /// The slot under which the container keeps the session.
    pub fn session(&self) -> (s: usize)
        ensures
            s == self@.session,
    {
        self.session
    }

    /// Whether the session has not been closed through this value.
    pub fn is_open(&self) -> (b: bool)
        ensures
            b == self@.open,
    {
        self.open
    }

    /// Closes the session, once.
    ///
    /// The first close of a session whose slot `file_manager` holds gives the call
    /// that releases it on the foreign side, and frees the slot. Any other close
    /// gives no call and changes nothing but to mark this value closed.
    pub fn close(&mut self, file_manager: &mut GFXFileManager) -> (r: Option<Call>)
        ensures
            r == close_call(old(self)@, old(file_manager)@),
            final(self)@ == closed(old(self)@),
            final(file_manager)@ == after_close(old(self)@, old(file_manager)@),
    {
        let was_open = self.open;
        self.open = false;
        if was_open && file_manager.untrack_search(self.session) {
            Some(Call::CloseSearchResult { session: self.session })
        } else {
            None
        }
    }
}

impl GFXFileManager {
    /// The call that begins a search for the entries of the current directory
    /// that match `pattern`.
    pub fn find_first_file(&self, pattern: &str) -> (r: Result<Call, Error>)
        ensures
            match r {
                Ok(c) => {
                    &&& sendable(pattern)
                    &&& c matches Call::FindFirstFile { pattern: p }
                    &&& p@ == wire(pattern)
                },
                Err(e) => !sendable(pattern) && e == Error::Encoding,
            },
    {
        match c_string(pattern) {
            Ok(p) => Ok(Call::FindFirstFile { pattern: p }),
            Err(e) => Err(e),
        }
    }

    /// Takes up the session that a first search has begun, from the session
    /// buffer and the entry record that the foreign side filled in.
    ///
    /// The session gets the lowest free slot of the container and is open whether
    /// or not the search found a match; the entry means something only where it
    /// did. A buffer or record of the wrong length is reported as truncated, and
    /// then no session is taken up.
    pub fn find_first_file_reply(&mut self, session: &[u8], entry: &[u8]) -> (r: Result<
        (SearchResult, ResultEntry),
        Error,
    >)
        ensures
            match r {
                Ok(found) => {
                    &&& session@.len() == SESSION_BYTES
                    &&& entry@.len() == ENTRY_BYTES
                    &&& found.0@ == (SearchView {
                        session: next_slot(old(self)@.searches) as usize,
                        success: session@[0],
                        h_find: le_u32(session@, SESSION_HANDLE_AT as int) as u32,
                        open: true,
                    })
                    &&& found.1@ == entry_of(entry@)
                    &&& final(self)@ == (ManagerView {
                        searches: taken(old(self)@.searches, next_slot(old(self)@.searches)),
                        ..old(self)@
                    })
                },
                Err(e) => {
                    &&& e == Error::Truncated
                    &&& (session@.len() != SESSION_BYTES || entry@.len() != ENTRY_BYTES)
                    &&& final(self)@ == old(self)@
                },
            },
    {
        if session.len() != SESSION_BYTES {
            return Err(Error::Truncated);
        }
        match ResultEntry::decode(entry) {
            Ok(first) => {
                let slot = self.track_search();
                let found = SearchResult {
                    session: slot,
                    success: session[0],
                    h_find: read_u32(session, SESSION_HANDLE_AT),
                    open: true,
                };
                Ok((found, first))
            },
            Err(e) => Err(e),
        }
    }

    /// The call that advances a search to its next match; `None` for a session
    /// that is closed.
    pub fn find_next_file(&self, search: &SearchResult) -> (r: Option<Call>)
        ensures
            r == if live(search@, self@) {
                Some(Call::FindNextFile { session: search@.session })
            } else {
                None
            },
    {
        if search.is_open() && self.holds_search(search.session()) {
            Some(Call::FindNextFile { session: search.session() })
        } else {
            None
        }
    }

    /// The next match of a search, from the answer of the foreign side and the
    /// entry record that it filled in.
    ///
    /// An answer of zero is the end of the matches, `None`; it closes nothing.
    /// Any other answer comes with an entry, whose record is reported as truncated
    /// where it has the wrong length.
    pub fn find_next_file_reply(raw: i32, entry: &[u8]) -> (r: Result<Option<ResultEntry>, Error>)
        ensures
            match r {
                Ok(None) => raw == 0,
                Ok(Some(e)) => raw != 0 && entry@.len() == ENTRY_BYTES && e@ == entry_of(entry@),
                Err(e) => raw != 0 && entry@.len() != ENTRY_BYTES && e == Error::Truncated,
            },
    {
        if raw == 0 {
            Ok(None)
        } else {
            match ResultEntry::decode(entry) {
                Ok(e) => Ok(Some(e)),
                Err(e) => Err(e),
            }
        }
    }
}

} // verus!
