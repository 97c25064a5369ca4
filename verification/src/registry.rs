//! The profile registry: the local profiles and the marker that says which
//! one is active.
//!
//! The registry is an explicit record that is handed to whoever needs it, in
//! place of a marker that every part of a program can reach. Replacing the
//! marker is a single assignment behind an exclusive borrow, so no reader sees
//! it half-written.

use vstd::prelude::*;
use crate::error::Error;
use crate::profile::{views, Profile, ProfileId, ProfileView};

verus! {

/// What contracts say of a registry.
pub struct RegistryView {
    /// The profiles, in the order in which they were added.
    pub profiles: Seq<ProfileView>,
    /// The identifier of the active profile, if one is marked.
    pub active: Option<Seq<char>>,
}

/// Whether some profile of the list has this identifier.
pub open spec fn has_id(profiles: Seq<ProfileView>, id: Seq<char>) -> bool {
    exists|i: int| 0 <= i < profiles.len() && #[trigger] profiles[i].id == id
}

/// Whether some profile of the list has this key.
pub open spec fn has_peer(profiles: Seq<ProfileView>, peer: Seq<char>) -> bool {
    exists|i: int| 0 <= i < profiles.len() && #[trigger] profiles[i].peer == peer
}

/// Whether `i` is the first place in the list that holds this identifier.
pub open spec fn first_at(profiles: Seq<ProfileView>, id: Seq<char>, i: int) -> bool {
    &&& 0 <= i < profiles.len()
    &&& profiles[i].id == id
    &&& forall|j: int| 0 <= j < i ==> #[trigger] profiles[j].id != id
}

/// No two profiles share an identifier or a key, and the active marker, when
/// set, names a profile of the registry.
pub open spec fn well_formed(r: RegistryView) -> bool {
    &&& forall|i: int, j: int|
        0 <= i < j < r.profiles.len() ==> #[trigger] r.profiles[i].id != #[trigger] r.profiles[j].id
    &&& forall|i: int, j: int|
        0 <= i < j < r.profiles.len() ==> #[trigger] r.profiles[i].peer
            != #[trigger] r.profiles[j].peer
    &&& r.active matches Some(id) ==> has_id(r.profiles, id)
}

/// The active profile of a registry, if one is marked.
pub open spec fn active_profile(r: RegistryView) -> Option<ProfileView> {
    match r.active {
        Some(id) => if has_id(r.profiles, id) {
            Some(r.profiles[choose|i: int| first_at(r.profiles, id, i)])
        } else {
            None
        },
        None => None,
    }
}

/// Whether the user has to be asked which profile to use: only when there is
/// more than one.
pub open spec fn needs_prompt_spec(profiles: Seq<ProfileView>) -> bool {
    profiles.len() > 1
}

/// The profile a selection yields. With at most one candidate nobody is asked
/// and the current profile stays. With more, the answer names the candidate by
/// its place in the list; an answer that names none is a failed exchange.
pub open spec fn select_spec(
    profiles: Seq<ProfileView>,
    current: ProfileView,
    choice: Option<usize>,
) -> Result<ProfileView, Error> {
    if !needs_prompt_spec(profiles) {
        Ok(current)
    } else {
        match choice {
            Some(i) => if i < profiles.len() {
                Ok(profiles[i as int])
            } else {
                Err(Error::Storage)
            },
            None => Err(Error::Storage),
        }
    }
}

/// A key belongs to one profile only: two places of a well-formed registry
/// that hold the same key, or the same identifier, are the same place.
pub proof fn law_key_names_one_profile(registry: RegistryView, i: int, j: int)
    requires
        well_formed(registry),
        0 <= i < registry.profiles.len(),
        0 <= j < registry.profiles.len(),
        registry.profiles[i].peer == registry.profiles[j].peer || registry.profiles[i].id
            == registry.profiles[j].id,
    ensures
        i == j,
{
    if i < j {
        assert(registry.profiles[i].peer != registry.profiles[j].peer);
        assert(registry.profiles[i].id != registry.profiles[j].id);
    } else if j < i {
        assert(registry.profiles[j].peer != registry.profiles[i].peer);
        assert(registry.profiles[j].id != registry.profiles[i].id);
    }
}

/// With a single profile the selection is that profile, and nobody is asked:
/// the active profile of a registry is one of its profiles, so it is the only
/// one there is.
pub proof fn law_single_profile_selected(
    registry: RegistryView,
    current: ProfileView,
    choice: Option<usize>,
)
    requires
        well_formed(registry),
        registry.profiles.len() == 1,
        active_profile(registry) == Some(current),
    ensures
        !needs_prompt_spec(registry.profiles),
        select_spec(registry.profiles, current, choice) == Ok::<ProfileView, Error>(
            registry.profiles[0],
        ),
{
    assert(first_at(registry.profiles, registry.active->Some_0, 0));
}

/// With several profiles the user is asked, and the selection is exactly the
/// candidate that was picked, whichever profile was active.
pub proof fn law_choice_selected(profiles: Seq<ProfileView>, current: ProfileView, choice: usize)
    requires
        profiles.len() >= 2,
        choice < profiles.len(),
    ensures
        needs_prompt_spec(profiles),
        select_spec(profiles, current, Some(choice)) == Ok::<ProfileView, Error>(
            profiles[choice as int],
        ),
{
}

/// The first place in `profiles` that holds the identifier `id`.
pub fn position(profiles: &Vec<Profile>, id: &ProfileId) -> (at: Option<usize>)
    ensures
        match at {
            Some(i) => first_at(views(profiles@), id@, i as int),
            None => !has_id(views(profiles@), id@),
        },
{
    let mut i: usize = 0;
    while i < profiles.len()
        invariant
            i <= profiles.len(),
            forall|j: int| 0 <= j < i ==> #[trigger] views(profiles@)[j].id != id@,
        decreases profiles.len() - i,
    {
        if profiles[i].id().same(id) {
            return Some(i);
        }
        i += 1;
    }
    None
}

/// See [`needs_prompt_spec`].
pub fn needs_prompt(profiles: &Vec<Profile>) -> (b: bool)
    ensures
        b == needs_prompt_spec(views(profiles@)),
{
    profiles.len() > 1
}

/// See [`select_spec`]. The candidates are only read.
pub fn select(profiles: &Vec<Profile>, current: &Profile, choice: Option<usize>) -> (r: Result<
    Profile,
    Error,
>)
    ensures
        match r {
            Ok(p) => select_spec(views(profiles@), current@, choice) == Ok::<ProfileView, Error>(
                p@,
            ),
            Err(e) => select_spec(views(profiles@), current@, choice) == Err::<ProfileView, Error>(
                e,
            ),
        },
{
    if !needs_prompt(profiles) {
        return Ok(current.clone());
    }
    match choice {
        Some(i) => {
            if i < profiles.len() {
                Ok(profiles[i].clone())
            } else {
                Err(Error::Storage)
            }
        },
        None => Err(Error::Storage),
    }
}

/// The local profiles and the active marker.
pub struct Registry {
    profiles: Vec<Profile>,
    active: Option<ProfileId>,
}

impl View for Registry {
    type V = RegistryView;

    closed spec fn view(&self) -> RegistryView {
        RegistryView {
            profiles: views(self.profiles@),
            active: match self.active {
                Some(id) => Some(id@),
                None => None,
            },
        }
    }
}

impl Registry {
    /// The invariant of a registry. `new` establishes it and every method
    /// keeps it.
    pub open spec fn wf(&self) -> bool {
        well_formed(self@)
    }

    /// A registry without profiles: no identity yet.
    pub fn new() -> (r: Registry)
        ensures
            r.wf(),
            r@.profiles.len() == 0,
            r@.active is None,
    {
        Registry { profiles: Vec::new(), active: None }
    }

    /// All local profiles. An empty list is no failure.
    pub fn list(&self) -> (profiles: &Vec<Profile>)
        ensures
            views(profiles@) == self@.profiles,
    {
        &self.profiles
    }

    pub fn is_empty(&self) -> (b: bool)
        ensures
            b == (self@.profiles.len() == 0),
    {
        self.profiles.len() == 0
    }

    /// Adds a profile. It fails with `Storage`, and changes nothing, when a
    /// profile with the same identifier or the same key is already there.
    pub fn insert(&mut self, profile: Profile) -> (r: Result<(), Error>)
        requires
            old(self).wf(),
        ensures
            final(self).wf(),
            final(self)@.active == old(self)@.active,
            r is Ok <==> !has_id(old(self)@.profiles, profile@.id) && !has_peer(
                old(self)@.profiles,
                profile@.peer,
            ),
            r is Ok ==> final(self)@.profiles == old(self)@.profiles.push(profile@),
            r is Err ==> r == Err::<(), Error>(Error::Storage) && final(self)@ == old(self)@,
    {
        let mut i: usize = 0;
        while i < self.profiles.len()
            invariant
                i <= self.profiles.len(),
                *self == *old(self),
                self.wf(),
                forall|j: int| 0 <= j < i ==> #[trigger] views(self.profiles@)[j].id != profile@.id,
                forall|j: int|
                    0 <= j < i ==> #[trigger] views(self.profiles@)[j].peer != profile@.peer,
            decreases self.profiles.len() - i,
        {
            if self.profiles[i].id().same(profile.id()) || self.profiles[i].peer().same(
                profile.peer(),
            ) {
                assert(views(self.profiles@)[i as int].id == profile@.id || views(
                    self.profiles@,
                )[i as int].peer == profile@.peer);
                return Err(Error::Storage);
            }
            i += 1;
        }
        let ghost before = self@;
        self.profiles.push(profile);
        proof {
            assert(self@.profiles =~= before.profiles.push(profile@));
            assert(self@.active == before.active);
            assert forall|a: Seq<char>| has_id(before.profiles, a) implies has_id(
                self@.profiles,
                a,
            ) by {
                let k = choose|k: int| 0 <= k < before.profiles.len() && before.profiles[k].id == a;
                assert(self@.profiles[k].id == a);
            }
        }
        Ok(())
    }

    /// The active profile, or `NoActiveProfile` when none is marked.
    pub fn default(&self) -> (r: Result<Profile, Error>)
        requires
            self.wf(),
        ensures
            match r {
                Ok(p) => active_profile(self@) == Some(p@),
                Err(e) => e == Error::NoActiveProfile && self@.active is None,
            },
    {
        match &self.active {
            None => Err(Error::NoActiveProfile),
            Some(id) => {
                match position(&self.profiles, id) {
                    Some(i) => {
                        proof {
                            Self::lemma_first_unique(self@.profiles, id@, i as int);
                        }
                        Ok(self.profiles[i].clone())
                    },
                    None => Err(Error::NoActiveProfile),
                }
            },
        }
    }

    /// Marks the profile with this identifier active. It fails with
    /// `Storage`, and changes nothing, when the registry holds no such
    /// profile. The profiles themselves are never touched.
    pub fn set_active(&mut self, id: &ProfileId) -> (r: Result<(), Error>)
        requires
            old(self).wf(),
        ensures
            final(self).wf(),
            final(self)@.profiles == old(self)@.profiles,
            r is Ok <==> has_id(old(self)@.profiles, id@),
            r is Ok ==> final(self)@.active == Some(id@),
            r is Err ==> r == Err::<(), Error>(Error::Storage) && final(self)@ == old(self)@,
    {
        match position(&self.profiles, id) {
            Some(i) => {
                self.active = Some(id.clone());
                assert(self@.profiles[i as int].id == id@);
                assert(self@.profiles == old(self)@.profiles);
                Ok(())
            },
            None => Err(Error::Storage),
        }
    }

    /// At most one place is the first that holds an identifier.
    proof fn lemma_first_unique(profiles: Seq<ProfileView>, id: Seq<char>, i: int)
        requires
            first_at(profiles, id, i),
        ensures
            has_id(profiles, id),
            (choose|k: int| first_at(profiles, id, k)) == i,
    {
        let k = choose|k: int| first_at(profiles, id, k);
        if k < i {
            assert(profiles[k].id != id);
        } else if i < k {
            assert(profiles[i].id != id);
        }
    }
}

} // verus!
