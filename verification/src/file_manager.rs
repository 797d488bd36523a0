//! The container handle: the client-side state of one foreign container object.

use vstd::prelude::*;
use crate::call::Call;
use crate::error::Error;
use crate::registry::{
    file_closes, first_at, first_at_unique, free_at, free_at_unique, next_slot, search_closes,
    search_closes_has, search_closes_only, taken, without,
};
use crate::structures::{Mode, OBJECT_VERSION};

verus! {

/// The client-side state of one foreign container object: the mode and interface
/// version it was created with, and the books on the files and search sessions
/// that were derived from it and are still open.
///
/// A value of this type stands for a live foreign object. It comes into being when
/// the factory has produced one, and `release` consumes it.
///
/// The foreign side is not known to be safe for concurrent use: two operations on
/// one container must not run at once, and nothing here locks for the caller.
#[derive(Debug)]
pub struct GFXFileManager {
    mode: Mode,
    version: i32,
    files: Vec<i32>,
    searches: Vec<bool>,
}

/// A container handle as plain values.
pub struct ManagerView {
    /// The mode that the object was created in.
    pub mode: Mode,
    /// The interface version that the object was created with.
    pub version: i32,
    /// The handles of the open files, in the order in which they were opened.
    pub files: Seq<i32>,
    /// For each session slot, whether an open search session holds it.
    pub searches: Seq<bool>,
}

impl View for GFXFileManager {
    type V = ManagerView;

    closed spec fn view(&self) -> ManagerView {
        ManagerView {
            mode: self.mode,
            version: self.version,
            files: self.files@,
            searches: self.searches@,
        }
    }
}

/// What is left to do once the derived resources of a container are closed: ask
/// whether the container is open, close it if it is, and release the object.
///
/// A value of this type comes from `release` alone.
#[derive(Debug)]
pub struct Closing {
    asked: (),
}

/// The calls that take a container down, in their order: each open search session
/// is closed, then each open file, then all files at once, and the foreign side is
/// asked whether the container is open.
pub open spec fn release_calls(m: ManagerView) -> Seq<Call> {
    search_closes(m.searches) + file_closes(m.files) + seq![Call::CloseAllFiles, Call::IsOpen]
}

/// The calls that end the release, given the answer to whether the container is
/// open: close it if it is, then release the object.
pub open spec fn finish_calls(is_open: i32) -> Seq<Call> {
    if is_open != 0 {
        seq![Call::CloseContainer, Call::ReleaseObject]
    } else {
        seq![Call::ReleaseObject]
    }
}

/// The order of a release. Of the calls that take a container down and end with
/// the release of its object, whatever the books hold and whatever the foreign
/// side answers:
/// the first calls close derived resources and nothing else, among them every file
/// in the books and every search session that holds a slot; then all files are
/// closed at once and the foreign side is asked whether the container is open;
/// the container is closed after that, and only if it is open; and the release of
/// the object is the last call of all.
pub proof fn release_order(m: ManagerView, is_open: i32)
    requires
        m.searches.len() <= usize::MAX,
    ensures
        ({
            let plan = release_calls(m) + finish_calls(is_open);
            let derived = (search_closes(m.searches).len() + m.files.len()) as int;
            &&& forall|k: int|
                0 <= k < derived ==> (#[trigger] plan[k] is CloseFile
                    || plan[k] is CloseSearchResult)
            &&& forall|h: i32|
                m.files.contains(h) ==> exists|k: int|
                    0 <= k < derived && plan[k] == (Call::CloseFile { handle: h })
            &&& forall|session: usize|
                session < m.searches.len() && m.searches[session as int] ==> exists|k: int|
                    0 <= k < derived && plan[k] == (Call::CloseSearchResult { session })
            &&& plan[derived] == Call::CloseAllFiles
            &&& plan[derived + 1] == Call::IsOpen
            &&& is_open != 0 ==> plan.len() == derived + 4 && plan[derived + 2]
                == Call::CloseContainer
            &&& is_open == 0 ==> plan.len() == derived + 3
            &&& plan.last() == Call::ReleaseObject
        }),
{
    let first = search_closes(m.searches);
    let second = file_closes(m.files);
    let plan = release_calls(m) + finish_calls(is_open);
    let derived = (first.len() + m.files.len()) as int;
    assert forall|k: int| 0 <= k < derived implies (#[trigger] plan[k] is CloseFile
        || plan[k] is CloseSearchResult) by {
        if k < first.len() {
            search_closes_only(m.searches, k);
            assert(plan[k] == first[k]);
        } else {
            assert(plan[k] == second[k - first.len()]);
        }
    }
    assert forall|h: i32| m.files.contains(h) implies exists|k: int|
        0 <= k < derived && plan[k] == (Call::CloseFile { handle: h }) by {
        let i = m.files.index_of(h);
        assert(plan[first.len() + i] == second[i]);
    }
    assert forall|session: usize|
        session < m.searches.len() && m.searches[session as int] implies exists|k: int|
        0 <= k < derived && plan[k] == (Call::CloseSearchResult { session }) by {
        search_closes_has(m.searches, session);
        let c = Call::CloseSearchResult { session };
        let k = choose|k: int| 0 <= k < first.len() && first[k] == c;
        assert(plan[k] == c);
    }
}

impl GFXFileManager {
    /// The call that creates the foreign object for `mode` with the default
    /// interface version.
    pub fn factory_call(mode: Mode) -> (c: Call)
        ensures
            c == (Call::CreateObject { mode: mode.spec_code(), version: OBJECT_VERSION }),
    {
        Self::factory_call_with_version(mode, OBJECT_VERSION)
    }

    /// The call that creates the foreign object for `mode` and `version`.
    pub fn factory_call_with_version(mode: Mode, version: i32) -> (c: Call)
        ensures
            c == (Call::CreateObject { mode: mode.spec_code(), version }),
    {
        Call::CreateObject { mode: mode.code(), version }
    }

    /// The books of a handle are of a size that a machine can hold: there are no
    /// more file entries and no more session slots than `usize::MAX`.
    pub proof fn books_are_bounded(&self)
        ensures
            self@.files.len() <= usize::MAX,
            self@.searches.len() <= usize::MAX,
    {
        vstd::std_specs::vec::axiom_spec_len(&self.files);
        vstd::std_specs::vec::axiom_spec_len(&self.searches);
    }

    /// The handle of an object that the factory was asked for with the default
    /// interface version. `created` says whether the factory produced an object.
    pub fn new(mode: Mode, created: bool) -> (r: Result<GFXFileManager, Error>)
        ensures
            match r {
                Ok(fm) => created && fm@ == (ManagerView {
                    mode,
                    version: OBJECT_VERSION,
                    files: Seq::empty(),
                    searches: Seq::empty(),
                }),
                Err(e) => !created && e == Error::ConstructionFailed,
            },
    {
        Self::new_with_version(mode, OBJECT_VERSION, created)
    }

    /// The handle of an object that the factory was asked for. `created` says
    /// whether the factory produced an object; where it did not, construction has
    /// failed and there is no handle. The version token is not judged here: what
    /// the foreign side makes of it shows in `created` alone.
    pub fn new_with_version(mode: Mode, version: i32, created: bool) -> (r: Result<
        GFXFileManager,
        Error,
    >)
        ensures
            match r {
                Ok(fm) => created && fm@ == (ManagerView {
                    mode,
                    version,
                    files: Seq::empty(),
                    searches: Seq::empty(),
                }),
                Err(e) => !created && e == Error::ConstructionFailed,
            },
    {
        if created {
            Ok(GFXFileManager { mode, version, files: Vec::new(), searches: Vec::new() })
        } else {
            Err(Error::ConstructionFailed)
        }
    }

    /// The mode that the object was created in.
    pub fn created_mode(&self) -> (m: Mode)
        ensures
            m == self@.mode,
    {
        self.mode
    }

    /// The interface version that the object was created with.
    pub fn abi_version(&self) -> (v: i32)
        ensures
            v == self@.version,
    {
        self.version
    }

    /// The number of files that are open.
    pub fn open_files(&self) -> (n: usize)
        ensures
            n == self@.files.len(),
    {
        self.files.len()
    }

    /// Whether an open search session holds the slot `session`.
    pub fn holds_search(&self, session: usize) -> (b: bool)
        ensures
            b == (session < self@.searches.len() && self@.searches[session as int]),
    {
        session < self.searches.len() && self.searches[session]
    }

    /// Whether a file with the handle `handle` is open.
    pub fn holds_file(&self, handle: i32) -> (b: bool)
        ensures
            b == self@.files.contains(handle),
    {
        let mut i: usize = 0;
        while i < self.files.len()
            invariant
                i <= self.files@.len(),
                forall|j: int| 0 <= j < i ==> self.files@[j] != handle,
            decreases self.files@.len() - i,
        {
            if self.files[i] == handle {
                return true;
            }
            i += 1;
        }
        false
    }

    /// Enters a file handle in the books.
    pub(crate) fn track_file(&mut self, handle: i32)
        ensures
            final(self)@ == (ManagerView { files: old(self)@.files.push(handle), ..old(self)@ }),
    {
        self.files.push(handle);
    }

    /// Strikes the first entry of a file handle from the books; says whether there
    /// was one.
    pub(crate) fn untrack_file(&mut self, handle: i32) -> (found: bool)
        ensures
            found == old(self)@.files.contains(handle),
            final(self)@ == (ManagerView {
                files: without(old(self)@.files, handle),
                ..old(self)@
            }),
    {
        let mut i: usize = 0;
        while i < self.files.len()
            invariant
                *self == *old(self),
                i <= self.files@.len(),
                forall|j: int| 0 <= j < i ==> self.files@[j] != handle,
            decreases self.files@.len() - i,
        {
            if self.files[i] == handle {
                proof {
                    let k = choose|k: int| first_at(self.files@, handle, k);
                    assert(first_at(self.files@, handle, i as int));
                    first_at_unique(self.files@, handle, i as int, k);
                }
                self.files.remove(i);
                return true;
            }
            i += 1;
        }
        proof {
            if exists|k: int| first_at(self.files@, handle, k) {
                let k = choose|k: int| first_at(self.files@, handle, k);
                assert(self.files@[k] != handle);
            }
        }
        false
    }

    /// Takes the lowest free session slot.
    pub(crate) fn track_search(&mut self) -> (session: usize)
        ensures
            session == next_slot(old(self)@.searches),
            final(self)@ == (ManagerView {
                searches: taken(old(self)@.searches, session as int),
                ..old(self)@
            }),
    {
        let mut i: usize = 0;
        while i < self.searches.len()
            invariant
                *self == *old(self),
                i <= self.searches@.len(),
                forall|j: int| 0 <= j < i ==> self.searches@[j],
            decreases self.searches@.len() - i,
        {
            if !self.searches[i] {
                proof {
                    let k = choose|k: int| free_at(self.searches@, k);
                    assert(free_at(self.searches@, i as int));
                    free_at_unique(self.searches@, i as int, k);
                }
                self.searches.set(i, true);
                return i;
            }
            i += 1;
        }
        proof {
            if exists|k: int| free_at(self.searches@, k) {
                let k = choose|k: int| free_at(self.searches@, k);
                assert(self.searches@[k]);
            }
        }
        self.searches.push(true);
        i
    }

    /// Frees a session slot; says whether it was taken.
    pub(crate) fn untrack_search(&mut self, session: usize) -> (found: bool)
        ensures
            found == (session < old(self)@.searches.len() && old(self)@.searches[session as int]),
            final(self)@ == (ManagerView {
                searches: if found {
                    old(self)@.searches.update(session as int, false)
                } else {
                    old(self)@.searches
                },
                ..old(self)@
            }),
    {
        if session < self.searches.len() && self.searches[session] {
            self.searches.set(session, false);
            true
        } else {
            false
        }
    }

    /// Begins the release of the container object, which ends the life of this
    /// handle.
    ///
    /// The calls are to be made in their order: they close what is still open of
    /// the search sessions and files, then all files at once, and last ask whether
    /// the container is open. The answer to that last call goes to
    /// [`Closing::finish`].
    pub fn release(self) -> (r: (Vec<Call>, Closing))
        ensures
            r.0@ == release_calls(self@),
    {
        let mut plan: Vec<Call> = Vec::new();
        let mut i: usize = 0;
        while i < self.searches.len()
            invariant
                i <= self.searches@.len(),
                plan@ == search_closes(self.searches@.take(i as int)),
            decreases self.searches@.len() - i,
        {
            proof {
                assert(self.searches@.take(i + 1).drop_last() =~= self.searches@.take(i as int));
            }
            if self.searches[i] {
                plan.push(Call::CloseSearchResult { session: i });
            }
            i += 1;
        }
        assert(self.searches@.take(i as int) =~= self.searches@);
        let ghost first = plan@;
        let mut j: usize = 0;
        while j < self.files.len()
            invariant
                j <= self.files@.len(),
                plan@ == first + file_closes(self.files@.take(j as int)),
            decreases self.files@.len() - j,
        {
            plan.push(Call::CloseFile { handle: self.files[j] });
            j += 1;
            assert(plan@ =~= first + file_closes(self.files@.take(j as int)));
        }
        assert(self.files@.take(j as int) =~= self.files@);
        plan.push(Call::CloseAllFiles);
        plan.push(Call::IsOpen);
        assert(plan@ =~= release_calls(self@));
        (plan, Closing { asked: () })
    }
}

impl Closing {
    /// Ends the release. `is_open` is what the foreign side answered when asked
    /// whether the container is open: a container that is open is closed first,
    /// and the last call releases the object.
    pub fn finish(self, is_open: i32) -> (plan: Vec<Call>)
        ensures
            plan@ == finish_calls(is_open),
    {
        let mut plan: Vec<Call> = Vec::new();
        if is_open != 0 {
            plan.push(Call::CloseContainer);
        }
        plan.push(Call::ReleaseObject);
        assert(plan@ =~= finish_calls(is_open));
        plan
    }
}

} // verus!
