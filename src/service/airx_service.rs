//! A node's configuration and the services it runs.
use crate::network::peer::Peer;
use crate::network::peer::PeerModel;
use crate::service::data_service::DataService;
use crate::service::discovery_service::DiscoveryService;
use vstd::prelude::*;
use vstd::utf8::encode_utf8;

verus! {

/// The parameters a node runs with; fixed once the node is made.
pub struct AirXServiceConfig {
    pub discovery_service_server_port: u16,
    pub discovery_service_client_port: u16,
    pub text_service_listen_addr: String,
    pub data_service_listen_port: u16,
    pub group_identifier: u32,
}

impl Clone for AirXServiceConfig {
    fn clone(&self) -> (r: AirXServiceConfig)
        ensures
            r.discovery_service_server_port == self.discovery_service_server_port,
            r.discovery_service_client_port == self.discovery_service_client_port,
            r.text_service_listen_addr@ == self.text_service_listen_addr@,
            r.data_service_listen_port == self.data_service_listen_port,
            r.group_identifier == self.group_identifier,
    {
        AirXServiceConfig {
            discovery_service_server_port: self.discovery_service_server_port,
            discovery_service_client_port: self.discovery_service_client_port,
            text_service_listen_addr: self.text_service_listen_addr.clone(),
            data_service_listen_port: self.data_service_listen_port,
            group_identifier: self.group_identifier,
        }
    }
}

/// A node: its configuration, its data service and its discovery service.
pub struct AirXService {
    config: AirXServiceConfig,
    text_service: DataService,
    discovery_service: DiscoveryService,
}

impl AirXService {
    pub closed spec fn config_spec(&self) -> AirXServiceConfig {
        self.config
    }

    pub closed spec fn wf(&self) -> bool {
        self.discovery_service.wf()
    }

    pub closed spec fn discovery_spec(&self) -> DiscoveryService {
        self.discovery_service
    }

    /// A node with no known peers.
    pub fn new(config: &AirXServiceConfig) -> (r: AirXService)
        ensures
            r.wf(),
            r.config_spec().discovery_service_server_port == config.discovery_service_server_port,
            r.config_spec().discovery_service_client_port == config.discovery_service_client_port,
            r.config_spec().text_service_listen_addr@ == config.text_service_listen_addr@,
            r.config_spec().data_service_listen_port == config.data_service_listen_port,
            r.config_spec().group_identifier == config.group_identifier,
            r.discovery_spec().table() == Seq::<PeerModel>::empty(),
            r.discovery_spec().wf(),
    {
        AirXService {
            config: config.clone(),
            text_service: DataService::new(),
            discovery_service: DiscoveryService::new(),
        }
    }

    pub fn text_service(&self) -> (r: &DataService) {
        &self.text_service
    }

    pub fn discovery_service(&self) -> (r: &DiscoveryService)
        ensures
            *r == self.discovery_spec(),
            self.wf() ==> r.wf(),
    {
        &self.discovery_service
    }

    pub fn config(&self) -> (r: AirXServiceConfig)
        ensures
            r.discovery_service_server_port == self.config_spec().discovery_service_server_port,
            r.discovery_service_client_port == self.config_spec().discovery_service_client_port,
            r.text_service_listen_addr@ == self.config_spec().text_service_listen_addr@,
            r.data_service_listen_port == self.config_spec().data_service_listen_port,
            r.group_identifier == self.config_spec().group_identifier,
    {
        self.config.clone()
    }

    /// The configuration and the two services, for a caller that runs them
    /// on threads of its own.
    pub fn into_parts(self) -> (r: (AirXServiceConfig, DataService, DiscoveryService))
        ensures
            r.0 == self.config_spec(),
            r.2 == self.discovery_spec(),
            self.wf() ==> r.2.wf(),
    {
        (self.config, self.text_service, self.discovery_service)
    }
}

/// The hosts of `peers`, separated by commas.
pub open spec fn joined_hosts(peers: Seq<PeerModel>) -> Seq<char>
    decreases peers.len(),
{
    if peers.len() == 0 {
        Seq::empty()
    } else if peers.len() == 1 {
        peers[0].host
    } else {
        joined_hosts(peers.drop_last()) + seq![','] + peers.last().host
    }
}

/// The hosts of `peers`, separated by commas, as the host application is
/// given them.
pub fn peer_hosts_text(peers: &Vec<Peer>) -> (r: String)
    ensures
        r@ == joined_hosts(peers@.map_values(|p: Peer| p@)),
{
    let ghost models = peers@.map_values(|p: Peer| p@);
    let mut bytes: Vec<u8> = Vec::new();
    let mut i: usize = 0;
    while i < peers.len()
        invariant
            i <= peers@.len(),
            models == peers@.map_values(|p: Peer| p@),
            bytes@ == encode_utf8(joined_hosts(models.subrange(0, i as int))),
        decreases peers@.len() - i,
    {
        let ghost prefix = models.subrange(0, i as int);
        assert(models.subrange(0, i + 1).drop_last() =~= prefix);
        assert(models[i as int] == peers@[i as int]@);
        if i > 0 {
            bytes.push(44u8);
        }
        let mut host = crate::strings::utf8_bytes(peers[i].host());
        bytes.append(&mut host);
        proof {
            let comma = seq![','];
            vstd::utf8::is_ascii_chars_encode_utf8(comma);
            if i > 0 {
                crate::strings::lemma_utf8_concat(joined_hosts(prefix), comma);
                crate::strings::lemma_utf8_concat(joined_hosts(prefix) + comma, models[i as int].host);
                assert(bytes@ =~= encode_utf8(joined_hosts(models.subrange(0, i + 1))));
            } else {
                assert(bytes@ =~= encode_utf8(joined_hosts(models.subrange(0, i + 1))));
            }
        }
        i = i + 1;
    }
    assert(models.subrange(0, i as int) =~= models);
    crate::strings::string_from_encoding(bytes, Ghost(joined_hosts(models)))
}

} // verus!
