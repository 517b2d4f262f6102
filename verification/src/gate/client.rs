use crate::error::CoralGateError;
use crate::gate::csr::{begins_at_home, below_home, resolve_kube_path, KubePath};
use crate::gate::encoding::{base64_standard, encode_standard};
use crate::gate::pem::{lemma_bundle_block, pem_block, pem_bundle, push_pem_block};
use vstd::prelude::*;
use vstd::string::*;

verus! {

/// What a resolved connection knows of its cluster.
#[derive(Clone, Debug)]
pub struct ClusterConfig {
    /// The endpoint of the cluster's API.
    pub cluster_url: String,
    /// The trust anchors, each one certificate in DER, if the connection names any.
    pub root_cert: Option<Vec<Vec<u8>>>,
}

/// Holds the connection of one run, once it has been resolved.
#[derive(Clone, Debug)]
pub struct ClientManager {
    config: Option<ClusterConfig>,
}

/// Where the configuration of the connection is taken from.
#[derive(Clone, Debug)]
pub enum ConfigSource {
    /// The file at this path.
    File(KubePath),
    /// What the surroundings offer: the default file, or the cluster that the
    /// process runs in.
    Ambient,
}

/// The base64 bodies of the certificates, in their order.
pub open spec fn encoded_bodies(certs: Seq<Vec<u8>>) -> Seq<Seq<char>> {
    Seq::new(certs.len(), |i: int| base64_standard(certs[i]@))
}

/// The embeddable trust bundle of the certificates: the base64 text of their
/// PEM blocks put one after the other.
pub open spec fn trust_bundle(certs: Seq<Vec<u8>>) -> Seq<char> {
    base64_standard(vstd::utf8::encode_utf8(pem_bundle(encoded_bodies(certs))))
}

/// The text that a trust bundle encodes holds, for each certificate and in
/// the order of the certificates, the block of that certificate's base64 body.
pub proof fn lemma_trust_bundle_blocks(certs: Seq<Vec<u8>>, i: int)
    requires
        0 <= i < certs.len(),
    ensures
        ({
            let bodies = encoded_bodies(certs);
            let start = pem_bundle(bodies.take(i)).len() as int;
            let block = pem_block(base64_standard(certs[i]@));
            &&& start + block.len() <= pem_bundle(bodies).len()
            &&& pem_bundle(bodies).subrange(start, start + block.len()) == block
        }),
{
    lemma_bundle_block(encoded_bodies(certs), i);
}

impl ClientManager {
    /// The resolved configuration, if any.
    pub closed spec fn config(self) -> Option<ClusterConfig> {
        self.config
    }

    /// A manager whose connection is yet to be resolved.
    pub fn new() -> (m: ClientManager)
        ensures
            m.config() is None,
    {
        ClientManager { config: None }
    }

    /// Whether the connection has been resolved.
    pub fn is_resolved(&self) -> (b: bool)
        ensures
            b == self.config() is Some,
    {
        self.config.is_some()
    }

    /// Says where the configuration is taken from: from the file named, its
    /// path resolved against the home directory, or else from the surroundings.
    pub fn config_source(custom_config_path: &Option<String>, home: Option<String>) -> (source:
        ConfigSource)
        requires
            custom_config_path matches Some(path) && begins_at_home(path@) ==> home is Some,
        ensures
            custom_config_path is None ==> source is Ambient,
            custom_config_path matches Some(path) ==> source matches ConfigSource::File(resolved)
                && if begins_at_home(path@) {
                resolved.home == home && resolved.rest@ == below_home(path@)
            } else {
                resolved.home is None && resolved.rest@ == path@
            },
    {
        match custom_config_path {
            Some(path) => ConfigSource::File(resolve_kube_path(path.as_str(), home)),
            None => ConfigSource::Ambient,
        }
    }

    /// Records the configuration that the connection was resolved to. A run
    /// resolves its connection once.
    pub fn generate_kube_client(&mut self, resolved: ClusterConfig)
        requires
            old(self).config() is None,
        ensures
            final(self).config() == Some(resolved),
    {
        self.config = Some(resolved);
    }

    pub fn get_root_cert(&self) -> (r: Result<&Vec<Vec<u8>>, CoralGateError>)
        ensures
            match r {
                Ok(certs) => self.config() matches Some(c) && c.root_cert == Some(*certs),
                Err(CoralGateError::ClientManagerConfigNotInitialized) => self.config() is None,
                Err(CoralGateError::ClientManagerRootCaMissing) => self.config() matches Some(c)
                    && c.root_cert is None,
                Err(_) => false,
            },
    {
        match &self.config {
            Some(config) => match &config.root_cert {
                Some(root_cert) => Ok(root_cert),
                None => Err(CoralGateError::ClientManagerRootCaMissing),
            },
            None => Err(CoralGateError::ClientManagerConfigNotInitialized),
        }
    }

    pub fn root_cert_base64(&self) -> (r: Result<String, CoralGateError>)
        ensures
            match r {
                Ok(text) => self.config() matches Some(c) && c.root_cert matches Some(certs)
                    && certs.len() > 0 && text@ == trust_bundle(certs@),
                Err(CoralGateError::ClientManagerConfigNotInitialized) => self.config() is None,
                Err(CoralGateError::ClientManagerRootCaMissing) => self.config() matches Some(c)
                    && (c.root_cert matches Some(certs) ==> certs.len() == 0),
                Err(_) => false,
            },
    {
        let cert_chain = match self.get_root_cert() {
            Ok(certs) => certs,
            Err(e) => {
                return Err(e);
            },
        };
        if cert_chain.len() == 0 {
            return Err(CoralGateError::ClientManagerRootCaMissing);
        }
        Ok(trust_bundle_base64(cert_chain))
    }

    pub fn cluster_url(&self) -> (r: Result<String, CoralGateError>)
        ensures
            match r {
                Ok(url) => self.config() matches Some(c) && url@ == c.cluster_url@,
                Err(CoralGateError::ClientManagerConfigNotInitialized) => self.config() is None,
                Err(_) => false,
            },
    {
        match &self.config {
            Some(config) => Ok(config.cluster_url.clone()),
            None => Err(CoralGateError::ClientManagerConfigNotInitialized),
        }
    }
}

impl Default for ClientManager {
    fn default() -> (m: ClientManager)
        ensures
            m.config() is None,
    {
        ClientManager::new()
    }
}

/// The PEM bundle of certificate bodies that are already base64 text.
pub fn pem_bundle_of(bodies: &Vec<String>) -> (out: String)
    ensures
        out@ == pem_bundle(Seq::new(bodies.len() as nat, |i: int| bodies[i]@)),
{
    let ghost all = Seq::new(bodies.len() as nat, |i: int| bodies[i]@);
    let mut out = String::new();
    let mut i: usize = 0;
    while i < bodies.len()
        invariant
            i <= bodies.len(),
            all == Seq::new(bodies.len() as nat, |j: int| bodies[j]@),
            out@ == pem_bundle(all.take(i as int)),
        decreases bodies.len() - i,
    {
        proof {
            assert(all.take(i + 1).drop_last() =~= all.take(i as int));
            assert(all.take(i + 1).last() == bodies[i as int]@);
        }
        push_pem_block(&mut out, bodies[i].as_str());
        i = i + 1;
    }
    proof {
        assert(all.take(bodies.len() as int) =~= all);
    }
    out
}

/// The embeddable trust bundle of certificates given in DER.
pub fn trust_bundle_base64(certs: &Vec<Vec<u8>>) -> (out: String)
    ensures
        out@ == trust_bundle(certs@),
{
    let mut bodies: Vec<String> = Vec::new();
    let mut i: usize = 0;
    while i < certs.len()
        invariant
            i <= certs.len(),
            bodies.len() == i,
            forall|j: int| 0 <= j < i ==> bodies[j]@ == base64_standard(#[trigger] certs[j]@),
        decreases certs.len() - i,
    {
        let body = encode_standard(certs[i].as_slice());
        bodies.push(body);
        i = i + 1;
    }
    let bundle = pem_bundle_of(&bodies);
    proof {
        assert(Seq::new(bodies.len() as nat, |j: int| bodies[j]@) =~= encoded_bodies(certs@));
    }
    encode_standard(bundle.as_str().as_bytes())
}

} // verus!
