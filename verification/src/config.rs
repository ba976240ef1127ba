//! The configuration of the transport.
use libp2p_identity::{Keypair, PeerId};
use vstd::prelude::*;

verus! {

/// `libp2p_identity::Keypair`, carried as an opaque value.
#[verifier::external_type_specification]
#[verifier::external_body]
pub struct ExKeypair(libp2p_identity::Keypair);

/// The peer ID that belongs to the public key of a keypair.
pub uninterp spec fn keypair_peer_id(keypair: Keypair) -> PeerId;

/// `<Keypair as Clone>::clone`: the same keys.
pub assume_specification[ <Keypair as Clone>::clone ](keypair: &Keypair) -> (copy: Keypair)
    ensures
        copy == *keypair,
;

/// `Keypair::public` and `PublicKey::to_peer_id`: the peer ID, which the keys determine.
#[verifier::external_body]
fn peer_id_of(keypair: &Keypair) -> (peer: PeerId)
    ensures
        peer == keypair_peer_id(*keypair),
{
    keypair.public().to_peer_id()
}

/// Configuration for the WebRTC browser transport.
#[derive(Debug)]
pub struct Config {
    pub keypair: Keypair,
    pub stun_servers: Vec<String>,
}

impl Clone for Config {
    /// The same configuration.
    fn clone(&self) -> (copy: Self)
        ensures
            copy.keypair == self.keypair,
            copy.stun_servers@ == self.stun_servers@,
    {
        let stun_servers: Vec<String> = self.stun_servers.clone();
        assert(stun_servers@ =~= self.stun_servers@);
        Config { keypair: self.keypair.clone(), stun_servers }
    }
}

impl Config {
    /// The configuration with the given keys and no STUN server.
    pub fn new(keypair: &Keypair) -> (config: Self)
        ensures
            config.keypair == *keypair,
            config.stun_servers@ == Seq::<String>::empty(),
    {
        Config { keypair: keypair.clone(), stun_servers: Vec::new() }
    }

    /// Adds a STUN server behind those that are there.
    pub fn with_stun_server<T: Into<String>>(self, server: T) -> (config: Self)
        ensures
            config.keypair == self.keypair,
            exists|text: String| #[trigger]
                call_ensures(<T as Into<String>>::into, (server,), text)
                    && config.stun_servers@ == self.stun_servers@.push(text),
    {
        let mut config: Config = self;
        config.push_stun_server(server.into());
        config
    }

    /// Adds a STUN server behind those that are there.
    pub fn push_stun_server(&mut self, server: String)
        ensures
            final(self).keypair == old(self).keypair,
            final(self).stun_servers@ == old(self).stun_servers@.push(server),
    {
        self.stun_servers.push(server);
    }

    /// The peer ID under which this node is known.
    pub fn local_peer_id(&self) -> (peer: PeerId)
        ensures
            peer == keypair_peer_id(self.keypair),
    {
        peer_id_of(&self.keypair)
    }
}

} // verus!
