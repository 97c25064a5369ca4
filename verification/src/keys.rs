//! Key custody: which signing keys the agent holds, and how a key gets there.
//!
//! A profile's private key rests encrypted on disk. It is decrypted with a key
//! derived from the passphrase and handed to the signing agent, and from then
//! on the agent signs with it. Decryption is not done here: `add` is told what
//! it gave, as an [`Unseal`]. The [`Agent`] is the library's record of the
//! agent behind one socket: whether it answers, and for which keys.

use vstd::prelude::*;
use crate::error::Error;
use crate::profile::{PeerId, Profile, ProfileId, ProfileView};

verus! {

/// A passphrase as the user typed it. It is handed on to whoever derives the
/// decryption key from it and is kept no longer than that takes: it is never
/// written anywhere and cannot be printed.
pub struct Passphrase {
    text: String,
}

impl View for Passphrase {
    type V = Seq<char>;

    closed spec fn view(&self) -> Seq<char> {
        self.text@
    }
}

impl Passphrase {
    pub fn new(text: String) -> (p: Passphrase)
        ensures
            p@ == text@,
    {
        Passphrase { text }
    }

    /// The characters, for the key derivation.
    pub fn expose(&self) -> (s: &str)
        ensures
            s@ == self@,
    {
        self.text.as_str()
    }

    /// Whether two entries are the same passphrase.
    pub fn same(&self, other: &Passphrase) -> (b: bool)
        ensures
            b == (self@ == other@),
    {
        self.text == other.text
    }
}

impl Clone for Passphrase {
    fn clone(&self) -> (p: Passphrase)
        ensures
            p@ == self@,
    {
        Passphrase { text: self.text.clone() }
    }
}

/// What decrypting a profile's persisted key with the passphrase gave.
#[derive(Clone, Copy, Debug, PartialEq, Eq, Structural)]
pub enum Unseal {
    /// The passphrase was right; the key is in hand.
    Opened,
    /// The passphrase did not decrypt the key.
    WrongPassphrase,
    /// The encrypted key could not be read.
    Unreadable,
}

/// What contracts say of an agent.
pub struct AgentView {
    /// Whether the socket can be contacted.
    pub reachable: bool,
    /// The keys the agent can sign with.
    pub loaded: Set<Seq<char>>,
}

/// What contracts say of a signer.
pub struct SignerView {
    pub peer: Seq<char>,
    pub usable: bool,
}

/// The keys of a list, as a set.
pub open spec fn key_set(keys: Seq<PeerId>) -> Set<Seq<char>> {
    Set::new(|p: Seq<char>| exists|i: int| 0 <= i < keys.len() && #[trigger] keys[i]@ == p)
}

/// Whether the profile's key is loaded: the agent's answer, or
/// `AgentUnreachable` when it gives none.
pub open spec fn is_ready_spec(agent: AgentView, profile: ProfileView) -> Result<bool, Error> {
    if agent.reachable {
        Ok(agent.loaded.contains(profile.peer))
    } else {
        Err(Error::AgentUnreachable)
    }
}

/// The agent after an attempt to load the profile's key, and what the attempt
/// returns. Decryption comes first: a wrong passphrase is reported as such
/// whether or not the agent answers. Every failure leaves the agent as it was.
pub open spec fn add_spec(agent: AgentView, profile: ProfileView, unsealed: Unseal) -> (
    AgentView,
    Result<Seq<char>, Error>,
) {
    match unsealed {
        Unseal::WrongPassphrase => (agent, Err(Error::InvalidPassphrase)),
        Unseal::Unreadable => (agent, Err(Error::Storage)),
        Unseal::Opened => if agent.reachable {
            (
                AgentView { reachable: true, loaded: agent.loaded.insert(profile.peer) },
                Ok(profile.id),
            )
        } else {
            (agent, Err(Error::AgentUnreachable))
        },
    }
}

/// The signer bound to the profile's key, and the root of the profile's
/// storage. The signer is usable only if the key is loaded.
pub open spec fn storage_spec(agent: AgentView, profile: ProfileView) -> Result<
    (SignerView, Seq<char>),
    Error,
> {
    if agent.reachable {
        Ok(
            (
                SignerView { peer: profile.peer, usable: agent.loaded.contains(profile.peer) },
                profile.root,
            ),
        )
    } else {
        Err(Error::AgentUnreachable)
    }
}

/// A capability to sign with one key. It is bound to the key when it is
/// made; if the agent did not hold the key then, nothing can be signed with
/// it.
#[derive(Debug)]
pub struct Signer {
    peer: PeerId,
    usable: bool,
}

impl View for Signer {
    type V = SignerView;

    closed spec fn view(&self) -> SignerView {
        SignerView { peer: self.peer@, usable: self.usable }
    }
}

impl Signer {
    /// The key this signer is bound to.
    pub fn peer_id(&self) -> (peer: &PeerId)
        ensures
            peer@ == self@.peer,
    {
        &self.peer
    }

    /// What every signature begins with: the signing key, or
    /// `SigningKeyNotReady` when the agent does not hold it. Nothing is ever
    /// signed with a key that is not loaded.
    pub fn signing_key(&self) -> (r: Result<&PeerId, Error>)
        ensures
            match r {
                Ok(peer) => self@.usable && peer@ == self@.peer,
                Err(e) => !self@.usable && e == Error::SigningKeyNotReady,
            },
    {
        if self.usable {
            Ok(&self.peer)
        } else {
            Err(Error::SigningKeyNotReady)
        }
    }
}

/// A handle to a profile's persistent storage.
#[derive(Debug)]
pub struct Storage {
    root: String,
}

impl View for Storage {
    type V = Seq<char>;

    closed spec fn view(&self) -> Seq<char> {
        self.root@
    }
}

impl Storage {
    /// Where the storage lies.
    pub fn root(&self) -> (root: &str)
        ensures
            root@ == self@,
    {
        self.root.as_str()
    }
}

/// The signing agent behind one socket.
#[derive(Debug)]
pub struct Agent {
    reachable: bool,
    loaded: Vec<PeerId>,
}

impl View for Agent {
    type V = AgentView;

    closed spec fn view(&self) -> AgentView {
        AgentView { reachable: self.reachable, loaded: key_set(self.loaded@) }
    }
}

impl Agent {
    /// An agent that answers and holds no key.
    pub fn new() -> (agent: Agent)
        ensures
            agent@.reachable,
            agent@.loaded == Set::<Seq<char>>::empty(),
    {
        let agent = Agent { reachable: true, loaded: Vec::new() };
        assert(agent@.loaded =~= Set::<Seq<char>>::empty());
        agent
    }

    /// Records whether the socket can be contacted. The keys stay.
    pub fn set_reachable(&mut self, reachable: bool)
        ensures
            final(self)@ == (AgentView { reachable, loaded: old(self)@.loaded }),
    {
        self.reachable = reachable;
    }

    fn holds(&self, peer: &PeerId) -> (b: bool)
        ensures
            b == self@.loaded.contains(peer@),
    {
        let mut i: usize = 0;
        while i < self.loaded.len()
            invariant
                i <= self.loaded.len(),
                forall|j: int| 0 <= j < i ==> #[trigger] self.loaded@[j]@ != peer@,
            decreases self.loaded.len() - i,
        {
            if self.loaded[i].same(peer) {
                return true;
            }
            i += 1;
        }
        false
    }

    /// See [`is_ready_spec`]. The agent is only asked, never changed.
    pub fn is_ready(&self, profile: &Profile) -> (r: Result<bool, Error>)
        ensures
            r == is_ready_spec(self@, profile@),
    {
        if !self.reachable {
            return Err(Error::AgentUnreachable);
        }
        Ok(self.holds(profile.peer()))
    }

    /// See [`add_spec`]. Loading a key that is already loaded is safe and
    /// changes nothing.
    pub fn add(&mut self, profile: &Profile, unsealed: Unseal) -> (r: Result<ProfileId, Error>)
        ensures
            final(self)@ == add_spec(old(self)@, profile@, unsealed).0,
            match r {
                Ok(id) => add_spec(old(self)@, profile@, unsealed).1 == Ok::<Seq<char>, Error>(
                    id@,
                ),
                Err(e) => add_spec(old(self)@, profile@, unsealed).1 == Err::<Seq<char>, Error>(e),
            },
    {
        match unsealed {
            Unseal::WrongPassphrase => {
                return Err(Error::InvalidPassphrase);
            },
            Unseal::Unreadable => {
                return Err(Error::Storage);
            },
            Unseal::Opened => {},
        }
        if !self.reachable {
            return Err(Error::AgentUnreachable);
        }
        let ghost before = self.loaded@;
        if !self.holds(profile.peer()) {
            self.loaded.push(profile.peer().clone());
            proof {
                let last = before.len() as int;
                assert(self.loaded@[last]@ == profile@.peer);
                assert forall|p: Seq<char>|
                    key_set(before).insert(profile@.peer).contains(p) implies key_set(
                    self.loaded@,
                ).contains(p) by {
                    if p != profile@.peer {
                        let k = choose|k: int| 0 <= k < before.len() && before[k]@ == p;
                        assert(self.loaded@[k]@ == p);
                    }
                }
                assert forall|p: Seq<char>| key_set(self.loaded@).contains(p) implies key_set(
                    before,
                ).insert(profile@.peer).contains(p) by {
                    let k = choose|k: int| 0 <= k < self.loaded@.len() && self.loaded@[k]@ == p;
                    if k < last {
                        assert(before[k]@ == p);
                    }
                }
            }
        }
        assert(self@.loaded =~= key_set(before).insert(profile@.peer));
        Ok(profile.id().clone())
    }

    /// See [`storage_spec`].
    pub fn storage(&self, profile: &Profile) -> (r: Result<(Signer, Storage), Error>)
        ensures
            match r {
                Ok((signer, storage)) => storage_spec(self@, profile@) == Ok::<
                    (SignerView, Seq<char>),
                    Error,
                >((signer@, storage@)),
                Err(e) => storage_spec(self@, profile@) == Err::<(SignerView, Seq<char>), Error>(
                    e,
                ),
            },
    {
        if !self.reachable {
            return Err(Error::AgentUnreachable);
        }
        let usable = self.holds(profile.peer());
        let signer = Signer { peer: profile.peer().clone(), usable };
        let storage = Storage { root: String::from_str(profile.root()) };
        Ok((signer, storage))
    }

    /// Once a key was loaded for a profile, the agent reports it ready.
    pub proof fn law_add_then_ready(agent: AgentView, profile: ProfileView, unsealed: Unseal)
        requires
            add_spec(agent, profile, unsealed).1 is Ok,
        ensures
            is_ready_spec(add_spec(agent, profile, unsealed).0, profile) == Ok::<bool, Error>(
                true,
            ),
    {
    }

    /// Loading succeeds exactly when the key was decrypted and the agent
    /// answers, and then returns the profile's identifier.
    pub proof fn law_add_succeeds(agent: AgentView, profile: ProfileView, unsealed: Unseal)
        ensures
            add_spec(agent, profile, unsealed).1 is Ok <==> unsealed == Unseal::Opened
                && agent.reachable,
            add_spec(agent, profile, unsealed).1 is Ok ==> add_spec(agent, profile, unsealed).1
                == Ok::<Seq<char>, Error>(profile.id),
    {
    }

    /// A wrong passphrase is reported as `InvalidPassphrase`, whatever the
    /// state of the agent, and makes no key ready that was not ready before:
    /// the agent answers every question as it did.
    pub proof fn law_wrong_passphrase(agent: AgentView, profile: ProfileView, other: ProfileView)
        ensures
            add_spec(agent, profile, Unseal::WrongPassphrase).1 == Err::<Seq<char>, Error>(
                Error::InvalidPassphrase,
            ),
            add_spec(agent, profile, Unseal::WrongPassphrase).0 == agent,
            is_ready_spec(add_spec(agent, profile, Unseal::WrongPassphrase).0, other)
                == is_ready_spec(agent, other),
    {
    }

    /// A failed attempt of any kind leaves the agent as it was.
    pub proof fn law_failed_add_changes_nothing(
        agent: AgentView,
        profile: ProfileView,
        unsealed: Unseal,
    )
        requires
            add_spec(agent, profile, unsealed).1 is Err,
        ensures
            add_spec(agent, profile, unsealed).0 == agent,
    {
    }

    /// Loading is idempotent: a second load of the same key succeeds and
    /// leaves the agent as the first load left it.
    pub proof fn law_add_idempotent(agent: AgentView, profile: ProfileView)
        requires
            add_spec(agent, profile, Unseal::Opened).1 is Ok,
        ensures
            add_spec(add_spec(agent, profile, Unseal::Opened).0, profile, Unseal::Opened)
                == add_spec(agent, profile, Unseal::Opened),
    {
        let once = add_spec(agent, profile, Unseal::Opened).0;
        assert(once.loaded.insert(profile.peer) =~= once.loaded);
    }

    /// Loading one key neither loads nor drops any other.
    pub proof fn law_add_keeps_other_keys(
        agent: AgentView,
        profile: ProfileView,
        unsealed: Unseal,
        other: Seq<char>,
    )
        requires
            other != profile.peer,
        ensures
            add_spec(agent, profile, unsealed).0.loaded.contains(other) == agent.loaded.contains(
                other,
            ),
    {
    }

    /// A signer taken right after a successful load can sign.
    pub proof fn law_signer_usable_after_add(
        agent: AgentView,
        profile: ProfileView,
        unsealed: Unseal,
    )
        requires
            add_spec(agent, profile, unsealed).1 is Ok,
        ensures
            storage_spec(add_spec(agent, profile, unsealed).0, profile) == Ok::<
                (SignerView, Seq<char>),
                Error,
            >((SignerView { peer: profile.peer, usable: true }, profile.root)),
    {
    }
}

} // verus!
