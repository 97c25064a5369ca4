//! Identifiers and the profile record.
//!
//! Identifiers are held as the text they are shown and stored as. Contracts
//! speak of them through their views, which are sequences of characters.

use vstd::prelude::*;

verus! {

/// The stable, device-local identifier of a profile.
#[derive(Debug, PartialEq, Eq)]
pub struct ProfileId {
    text: String,
}

impl View for ProfileId {
    type V = Seq<char>;

    closed spec fn view(&self) -> Seq<char> {
        self.text@
    }
}

impl ProfileId {
    pub fn new(text: String) -> (id: ProfileId)
        ensures
            id@ == text@,
    {
        ProfileId { text }
    }

    pub fn as_str(&self) -> (s: &str)
        ensures
            s@ == self@,
    {
        self.text.as_str()
    }

    /// Whether two identifiers name the same profile.
    pub fn same(&self, other: &ProfileId) -> (b: bool)
        ensures
            b == (self@ == other@),
    {
        self.text == other.text
    }
}

impl Clone for ProfileId {
    fn clone(&self) -> (id: ProfileId)
        ensures
            id@ == self@,
    {
        ProfileId { text: self.text.clone() }
    }
}

/// The public half of a signing keypair. It identifies a device.
#[derive(Debug, PartialEq, Eq)]
pub struct PeerId {
    text: String,
}

impl View for PeerId {
    type V = Seq<char>;

    closed spec fn view(&self) -> Seq<char> {
        self.text@
    }
}

impl PeerId {
    pub fn new(text: String) -> (id: PeerId)
        ensures
            id@ == text@,
    {
        PeerId { text }
    }

    pub fn as_str(&self) -> (s: &str)
        ensures
            s@ == self@,
    {
        self.text.as_str()
    }

    /// Whether two identifiers name the same key.
    pub fn same(&self, other: &PeerId) -> (b: bool)
        ensures
            b == (self@ == other@),
    {
        self.text == other.text
    }
}

impl Clone for PeerId {
    fn clone(&self) -> (id: PeerId)
        ensures
            id@ == self@,
    {
        PeerId { text: self.text.clone() }
    }
}

/// A globally stable handle of an identity.
#[derive(Debug, PartialEq, Eq)]
pub struct Urn {
    text: String,
}

impl View for Urn {
    type V = Seq<char>;

    closed spec fn view(&self) -> Seq<char> {
        self.text@
    }
}

impl Urn {
    pub fn new(text: String) -> (urn: Urn)
        ensures
            urn@ == text@,
    {
        Urn { text }
    }

    pub fn as_str(&self) -> (s: &str)
        ensures
            s@ == self@,
    {
        self.text.as_str()
    }

    /// Whether two handles name the same identity.
    pub fn same(&self, other: &Urn) -> (b: bool)
        ensures
            b == (self@ == other@),
    {
        self.text == other.text
    }
}

impl Clone for Urn {
    fn clone(&self) -> (urn: Urn)
        ensures
            urn@ == self@,
    {
        Urn { text: self.text.clone() }
    }
}

/// What contracts say of a profile.
pub struct ProfileView {
    pub id: Seq<char>,
    pub root: Seq<char>,
    pub peer: Seq<char>,
}

/// A local identity profile: its identifier, the root of its storage on disk
/// and the public half of its keypair. A profile is created once and never
/// changed afterwards.
#[derive(Debug, PartialEq, Eq)]
pub struct Profile {
    id: ProfileId,
    root: String,
    peer: PeerId,
}

impl View for Profile {
    type V = ProfileView;

    closed spec fn view(&self) -> ProfileView {
        ProfileView { id: self.id@, root: self.root@, peer: self.peer@ }
    }
}

impl Profile {
    pub fn new(id: ProfileId, root: String, peer: PeerId) -> (p: Profile)
        ensures
            p@ == (ProfileView { id: id@, root: root@, peer: peer@ }),
    {
        Profile { id, root, peer }
    }

    pub fn id(&self) -> (id: &ProfileId)
        ensures
            id@ == self@.id,
    {
        &self.id
    }

    /// The root of the profile's storage.
    pub fn root(&self) -> (root: &str)
        ensures
            root@ == self@.root,
    {
        self.root.as_str()
    }

    /// The public half of the profile's keypair.
    pub fn peer(&self) -> (peer: &PeerId)
        ensures
            peer@ == self@.peer,
    {
        &self.peer
    }
}

impl Clone for Profile {
    fn clone(&self) -> (p: Profile)
        ensures
            p@ == self@,
    {
        Profile { id: self.id.clone(), root: self.root.clone(), peer: self.peer.clone() }
    }
}

/// The views of a list of profiles, in order.
pub open spec fn views(profiles: Seq<Profile>) -> Seq<ProfileView> {
    Seq::new(profiles.len(), |i: int| profiles[i]@)
}

/// A copy of a list of profiles.
pub fn copy_all(profiles: &Vec<Profile>) -> (copy: Vec<Profile>)
    ensures
        views(copy@) == views(profiles@),
{
    let mut copy: Vec<Profile> = Vec::new();
    let mut i: usize = 0;
    while i < profiles.len()
        invariant
            i <= profiles.len(),
            copy@.len() == i,
            forall|j: int| 0 <= j < i ==> copy@[j]@ == profiles@[j]@,
        decreases profiles.len() - i,
    {
        copy.push(profiles[i].clone());
        i += 1;
    }
    assert(views(copy@) =~= views(profiles@));
    copy
}

} // verus!
