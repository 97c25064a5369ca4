//! The person identity: a signed record that binds a username to a peer and
//! to a globally stable handle.

use vstd::prelude::*;
use crate::error::Error;
use crate::keys::{Signer, SignerView};
use crate::profile::{PeerId, Urn};

verus! {

/// What contracts say of a person record.
pub struct PersonView {
    pub username: Seq<char>,
    pub peer: Seq<char>,
    pub urn: Seq<char>,
}

/// A person identity. It is made once, when the identity is first created,
/// and signed with the key that was just loaded.
#[derive(Debug, PartialEq, Eq)]
pub struct Person {
    username: String,
    peer: PeerId,
    urn: Urn,
}

impl View for Person {
    type V = PersonView;

    closed spec fn view(&self) -> PersonView {
        PersonView { username: self.username@, peer: self.peer@, urn: self.urn@ }
    }
}

/// The record that a signer yields for a username and a handle, or
/// `SigningKeyNotReady` when the signer's key is not loaded.
pub open spec fn create_spec(username: Seq<char>, signer: SignerView, urn: Seq<char>) -> Result<
    PersonView,
    Error,
> {
    if signer.usable {
        Ok(PersonView { username, peer: signer.peer, urn })
    } else {
        Err(Error::SigningKeyNotReady)
    }
}

impl Person {
    /// Binds `username` and `urn` to the signer's key. See [`create_spec`]:
    /// without a loaded key there is no record.
    pub fn create(username: &str, signer: &Signer, urn: Urn) -> (r: Result<Person, Error>)
        ensures
            match r {
                Ok(p) => create_spec(username@, signer@, urn@) == Ok::<PersonView, Error>(p@),
                Err(e) => create_spec(username@, signer@, urn@) == Err::<PersonView, Error>(e),
            },
    {
        match signer.signing_key() {
            Ok(peer) => Ok(Person::bind(username, peer, urn)),
            Err(e) => Err(e),
        }
    }

    /// The record of a signature that was made elsewhere.
    pub(crate) fn bind(username: &str, peer: &PeerId, urn: Urn) -> (p: Person)
        ensures
            p@ == (PersonView { username: username@, peer: peer@, urn: urn@ }),
    {
        Person { username: String::from_str(username), peer: peer.clone(), urn }
    }

    pub fn username(&self) -> (name: &str)
        ensures
            name@ == self@.username,
    {
        self.username.as_str()
    }

    /// The key the record was signed with.
    pub fn peer(&self) -> (peer: &PeerId)
        ensures
            peer@ == self@.peer,
    {
        &self.peer
    }

    pub fn urn(&self) -> (urn: &Urn)
        ensures
            urn@ == self@.urn,
    {
        &self.urn
    }
}

impl Clone for Person {
    fn clone(&self) -> (p: Person)
        ensures
            p@ == self@,
    {
        Person { username: self.username.clone(), peer: self.peer.clone(), urn: self.urn.clone() }
    }
}

} // verus!
