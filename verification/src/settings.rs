//! The settings that the metering and the gateway selection read.

use crate::address::IpAddress;
use crate::amount::{int256_from_u64, int256_sub, int256_value};
use crate::debts::Identity;
use num256::Int256;
use vstd::prelude::*;
use vstd::string::*;

verus! {

/// Where this node sits on the mesh and how its peers reach it.
#[derive(Debug, PartialEq, Eq)]
pub struct NetworkSettings {
    pub own_ip: IpAddress,
    pub bounty_ip: IpAddress,
    pub babel_port: u16,
    pub rita_hello_port: u16,
    pub rita_dashboard_port: u16,
    pub bounty_port: u16,
    pub wg_private_key: String,
    pub wg_private_key_path: String,
    pub wg_public_key: String,
    pub wg_start_port: u16,
    pub peer_interfaces: Vec<String>,
    pub manual_peers: Vec<String>,
    pub default_route: Vec<String>,
    pub external_nic: Option<String>,
}

impl NetworkSettings {
    /// The peer interfaces are a set: none is listed twice.
    pub open spec fn wf(&self) -> bool {
        forall|i: int, j: int|
            0 <= i < j < self.peer_interfaces@.len() ==> self.peer_interfaces@[i]@
                != self.peer_interfaces@[j]@
    }

    /// The network settings of a node that was told nothing: the addresses
    /// `fd00::1` and `fd00::3`, the usual ports, and no keys, peers or
    /// routes.
    pub open spec fn is_default(&self) -> bool {
        &&& self.own_ip == IpAddress::V6(0xfd00_0000_0000_0000_0000_0000_0000_0001)
        &&& self.bounty_ip == IpAddress::V6(0xfd00_0000_0000_0000_0000_0000_0000_0003)
        &&& self.babel_port == 6872
        &&& self.rita_hello_port == 4876
        &&& self.rita_dashboard_port == 4877
        &&& self.bounty_port == 8888
        &&& self.wg_private_key@.len() == 0
        &&& self.wg_private_key_path@.len() == 0
        &&& self.wg_public_key@.len() == 0
        &&& self.wg_start_port == 60000
        &&& self.peer_interfaces@.len() == 0
        &&& self.manual_peers@.len() == 0
        &&& self.default_route@.len() == 0
        &&& self.external_nic.is_none()
    }
}

impl Default for NetworkSettings {
    fn default() -> (r: Self)
        ensures
            r.is_default(),
            r.wf(),
    {
        NetworkSettings {
            own_ip: IpAddress::V6(0xfd00_0000_0000_0000_0000_0000_0000_0001),
            bounty_ip: IpAddress::V6(0xfd00_0000_0000_0000_0000_0000_0000_0003),
            babel_port: 6872,
            rita_hello_port: 4876,
            rita_dashboard_port: 4877,
            bounty_port: 8888,
            wg_private_key: String::new(),
            wg_private_key_path: String::new(),
            wg_public_key: String::new(),
            wg_start_port: 60000,
            peer_interfaces: Vec::new(),
            manual_peers: Vec::new(),
            external_nic: None,
            default_route: Vec::new(),
        }
    }
}

/// When debts are paid and channels closed.
#[derive(Debug, PartialEq, Eq)]
pub struct PaymentSettings {
    pub pay_threshold: Int256,
    pub close_threshold: Int256,
    pub close_fraction: Int256,
    pub buffer_period: u32,
    pub eth_address: [u8; 20],
}

impl PaymentSettings {
    /// The payment settings of a node that was told nothing: pay at once,
    /// close at a debt of 10000, close fraction 100, and the address of
    /// twenty bytes 1.
    pub open spec fn is_default(&self) -> bool {
        &&& int256_value(self.pay_threshold) == 0
        &&& int256_value(self.close_threshold) == -10000
        &&& int256_value(self.close_fraction) == 100
        &&& self.buffer_period == 3
        &&& self.eth_address@ == Seq::new(20, |i: int| 1u8)
    }
}

impl Default for PaymentSettings {
    fn default() -> (r: Self)
        ensures
            r.is_default(),
    {
        let zero = int256_from_u64(0);
        let r = PaymentSettings {
            pay_threshold: zero,
            close_threshold: int256_sub(zero, int256_from_u64(10000)),
            close_fraction: int256_from_u64(100),
            buffer_period: 3,
            eth_address: [1u8; 20],
        };
        assert(r.eth_address@ =~= Seq::new(20, |i: int| 1u8));
        r
    }
}

/// What a client tells a gateway about itself when it registers.
#[derive(Debug, PartialEq, Eq)]
pub struct ExitRegistrationDetails {
    pub zip_code: Option<String>,
    pub email: Option<String>,
    pub country: Option<String>,
}

/// The session that a gateway has granted.
#[derive(Debug, PartialEq, Eq)]
pub struct ExitClientDetails {
    pub own_internal_ip: IpAddress,
    pub server_internal_ip: IpAddress,
    pub netmask: u8,
    pub eth_address: [u8; 20],
    pub wg_public_key: String,
    pub wg_exit_port: u16,
    pub exit_price: u64,
}

/// An advertised gateway.
#[derive(Debug, PartialEq, Eq)]
pub struct ExitClientSettings {
    pub exit_ip: IpAddress,
    pub exit_registration_port: u16,
    pub wg_listen_port: u16,
    pub details: Option<ExitClientDetails>,
    pub reg_details: ExitRegistrationDetails,
}

/// A second text equal to this one, where there is one.
fn duplicate_text(t: &Option<String>) -> (r: Option<String>)
    ensures
        r == *t,
{
    match t {
        Some(s) => Some(s.clone()),
        None => None,
    }
}

impl ExitClientDetails {
    /// A second value equal to this one.
    pub fn duplicate(&self) -> (r: ExitClientDetails)
        ensures
            r == *self,
    {
        ExitClientDetails {
            own_internal_ip: self.own_internal_ip,
            server_internal_ip: self.server_internal_ip,
            netmask: self.netmask,
            eth_address: self.eth_address,
            wg_public_key: self.wg_public_key.clone(),
            wg_exit_port: self.wg_exit_port,
            exit_price: self.exit_price,
        }
    }
}

impl ExitClientSettings {
    /// A second value equal to this one.
    pub fn duplicate(&self) -> (r: ExitClientSettings)
        ensures
            r == *self,
    {
        let details = match &self.details {
            Some(d) => Some(d.duplicate()),
            None => None,
        };
        ExitClientSettings {
            exit_ip: self.exit_ip,
            exit_registration_port: self.exit_registration_port,
            wg_listen_port: self.wg_listen_port,
            details,
            reg_details: ExitRegistrationDetails {
                zip_code: duplicate_text(&self.reg_details.zip_code),
                email: duplicate_text(&self.reg_details.email),
                country: duplicate_text(&self.reg_details.country),
            },
        }
    }
}

impl Default for ExitClientSettings {
    /// The gateway at `fd00::8` with the usual ports, not yet registered.
    fn default() -> (r: Self)
        ensures
            r.exit_ip == IpAddress::V6(0xfd00_0000_0000_0000_0000_0000_0000_0008),
            r.exit_registration_port == 4875,
            r.wg_listen_port == 59999,
            r.details.is_none(),
            r.reg_details.zip_code.is_some() && r.reg_details.zip_code.unwrap()@ == "1234"@,
            r.reg_details.email.is_some() && r.reg_details.email.unwrap()@ == "1234@gmail.com"@,
            r.reg_details.country.is_some() && r.reg_details.country.unwrap()@ == "Althea"@,
    {
        ExitClientSettings {
            exit_ip: IpAddress::V6(0xfd00_0000_0000_0000_0000_0000_0000_0008),
            exit_registration_port: 4875,
            wg_listen_port: 59999,
            details: None,
            reg_details: ExitRegistrationDetails {
                zip_code: Some(String::from_str("1234")),
                email: Some(String::from_str("1234@gmail.com")),
                country: Some(String::from_str("Althea")),
            },
        }
    }
}

/// Where usage statistics are sent.
#[derive(Debug, PartialEq, Eq)]
pub struct StatsServerSettings {
    pub stats_address: String,
    pub stats_port: u16,
}

impl Default for StatsServerSettings {
    /// No address and port 0.
    fn default() -> (r: Self)
        ensures
            r.stats_address@.len() == 0,
            r.stats_port == 0,
    {
        StatsServerSettings { stats_address: String::new(), stats_port: 0 }
    }
}

/// The local interfaces that are routed through the gateway tunnel.
#[derive(Debug, PartialEq, Eq)]
pub struct ExitTunnelSettings {
    pub lan_nics: Vec<String>,
}

impl Default for ExitTunnelSettings {
    /// No interfaces.
    fn default() -> (r: Self)
        ensures
            r.lan_nics@.len() == 0,
    {
        ExitTunnelSettings { lan_nics: Vec::new() }
    }
}

/// The network of a node that is itself a gateway.
#[derive(Debug, PartialEq, Eq)]
pub struct ExitNetworkSettings {
    pub exit_hello_port: u16,
    pub wg_tunnel_port: u16,
    pub exit_price: u64,
    pub own_internal_ip: IpAddress,
    pub exit_start_ip: IpAddress,
    pub netmask: u8,
}

impl ExitNetworkSettings {
    /// The gateway network of a node that was told nothing: the network
    /// `172.168.1.0/24`, clients from `.100`, the gateway at `.254`, at a
    /// price of 10.
    pub open spec fn is_default(&self) -> bool {
        &&& self.exit_hello_port == 4875
        &&& self.wg_tunnel_port == 59999
        &&& self.exit_price == 10
        &&& self.own_internal_ip == IpAddress::V4(0xaca8_01fe)
        &&& self.exit_start_ip == IpAddress::V4(0xaca8_0164)
        &&& self.netmask == 24
    }
}

impl Default for ExitNetworkSettings {
    fn default() -> (r: Self)
        ensures
            r.is_default(),
    {
        ExitNetworkSettings {
            exit_hello_port: 4875,
            wg_tunnel_port: 59999,
            exit_price: 10,
            own_internal_ip: IpAddress::V4(0xaca8_01fe),
            exit_start_ip: IpAddress::V4(0xaca8_0164),
            netmask: 24,
        }
    }
}

/// The settings of a client node.
#[derive(Debug, PartialEq, Eq)]
pub struct RitaSettingsStruct {
    pub payment: PaymentSettings,
    pub network: NetworkSettings,
    pub current_exit: Option<ExitClientSettings>,
    pub exit_tunnel_settings: ExitTunnelSettings,
    pub stats_server: Option<StatsServerSettings>,
    pub exits: Vec<ExitClientSettings>,
}

impl Default for RitaSettingsStruct {
    /// The settings of a client that was told nothing: no gateway chosen
    /// or advertised and no statistics server.
    fn default() -> (r: Self)
        ensures
            r.wf(),
            r.payment.is_default(),
            r.network.is_default(),
            r.current_exit.is_none(),
            r.exit_tunnel_settings.lan_nics@.len() == 0,
            r.stats_server.is_none(),
            r.exits@.len() == 0,
    {
        RitaSettingsStruct {
            payment: PaymentSettings::default(),
            network: NetworkSettings::default(),
            current_exit: None,
            exit_tunnel_settings: ExitTunnelSettings::default(),
            stats_server: None,
            exits: Vec::new(),
        }
    }
}

/// The settings of a gateway node.
#[derive(Debug, PartialEq, Eq)]
pub struct RitaExitSettingsStruct {
    pub db_file: String,
    pub payment: PaymentSettings,
    pub network: NetworkSettings,
    pub exit_network: ExitNetworkSettings,
    pub stats_server: Option<StatsServerSettings>,
}

impl Default for RitaExitSettingsStruct {
    /// The settings of a gateway that was told nothing: no database file
    /// and no statistics server.
    fn default() -> (r: Self)
        ensures
            r.db_file@.len() == 0,
            r.payment.is_default(),
            r.network.is_default(),
            r.exit_network.is_default(),
            r.stats_server.is_none(),
    {
        RitaExitSettingsStruct {
            db_file: String::new(),
            payment: PaymentSettings::default(),
            network: NetworkSettings::default(),
            exit_network: ExitNetworkSettings::default(),
            stats_server: None,
        }
    }
}

impl RitaExitSettingsStruct {
    /// This node's own identity.
    pub fn get_identity(&self) -> (r: Identity)
        ensures
            r == (Identity {
                mesh_ip: self.network.own_ip,
                eth_address: self.payment.eth_address,
                wg_public_key: self.network.wg_public_key,
            }),
    {
        Identity {
            mesh_ip: self.network.own_ip,
            eth_address: self.payment.eth_address,
            wg_public_key: self.network.wg_public_key.clone(),
        }
    }

    /// The file that holds the gateway's database.
    pub fn get_db_file(&self) -> (r: String)
        ensures
            r == self.db_file,
    {
        self.db_file.clone()
    }

    /// Whether a statistics server is configured.
    pub fn stats_server_settings_is_set(&self) -> (r: bool)
        ensures
            r == self.stats_server.is_some(),
    {
        self.stats_server.is_some()
    }
}

impl RitaSettingsStruct {
    /// The advertised gateways are a set, and so are the peer interfaces:
    /// none is listed twice.
    pub open spec fn wf(&self) -> bool {
        &&& self.network.wf()
        &&& forall|i: int, j: int|
            0 <= i < j < self.exits@.len() ==> self.exits@[i] != self.exits@[j]
    }

    /// Who the current gateway is: known once a gateway is chosen and has
    /// granted a session.
    pub open spec fn spec_exit_id(&self) -> Option<Identity> {
        match self.current_exit {
            Some(e) => match e.details {
                Some(d) => Some(
                    Identity {
                        mesh_ip: e.exit_ip,
                        eth_address: d.eth_address,
                        wg_public_key: d.wg_public_key,
                    },
                ),
                None => None,
            },
            None => None,
        }
    }

    /// The identity of the current gateway, if one is chosen and has
    /// granted a session.
    pub fn get_exit_id(&self) -> (r: Option<Identity>)
        ensures
            r == self.spec_exit_id(),
    {
        match &self.current_exit {
            Some(e) => match &e.details {
                Some(d) => Some(
                    Identity {
                        mesh_ip: e.exit_ip,
                        eth_address: d.eth_address,
                        wg_public_key: d.wg_public_key.clone(),
                    },
                ),
                None => None,
            },
            None => None,
        }
    }

    /// This node's own identity.
    pub fn get_identity(&self) -> (r: Identity)
        ensures
            r == (Identity {
                mesh_ip: self.network.own_ip,
                eth_address: self.payment.eth_address,
                wg_public_key: self.network.wg_public_key,
            }),
    {
        Identity {
            mesh_ip: self.network.own_ip,
            eth_address: self.payment.eth_address,
            wg_public_key: self.network.wg_public_key.clone(),
        }
    }

    /// Whether a gateway is chosen.
    pub fn current_exit_is_set(&self) -> (r: bool)
        ensures
            r == self.current_exit.is_some(),
    {
        self.current_exit.is_some()
    }

    /// Whether the chosen gateway has granted a session.
    pub fn current_exit_details_is_set(&self) -> (r: bool)
        requires
            self.current_exit.is_some(),
        ensures
            r == self.current_exit.unwrap().details.is_some(),
    {
        match &self.current_exit {
            Some(e) => e.details.is_some(),
            None => false,
        }
    }

    /// Makes `exit` the chosen gateway.
    pub fn init_current_exit(&mut self, exit: ExitClientSettings)
        ensures
            final(self).current_exit == Some(exit),
            final(self).payment == old(self).payment,
            final(self).network == old(self).network,
            final(self).exit_tunnel_settings == old(self).exit_tunnel_settings,
            final(self).stats_server == old(self).stats_server,
            final(self).exits == old(self).exits,
            old(self).wf() ==> final(self).wf(),
    {
        self.current_exit = Some(exit);
    }

    /// Whether a statistics server is configured.
    pub fn stats_server_settings_is_set(&self) -> (r: bool)
        ensures
            r == self.stats_server.is_some(),
    {
        self.stats_server.is_some()
    }

    /// Configures the statistics server.
    pub fn init_stats_server_settings(&mut self, stats_server: StatsServerSettings)
        ensures
            final(self).stats_server == Some(stats_server),
            final(self).payment == old(self).payment,
            final(self).network == old(self).network,
            final(self).exit_tunnel_settings == old(self).exit_tunnel_settings,
            final(self).current_exit == old(self).current_exit,
            final(self).exits == old(self).exits,
            old(self).wf() ==> final(self).wf(),
    {
        self.stats_server = Some(stats_server);
    }

    /// Forgets the statistics server.
    pub fn clear_stats_server_settings(&mut self)
        ensures
            final(self).stats_server.is_none(),
            final(self).payment == old(self).payment,
            final(self).network == old(self).network,
            final(self).exit_tunnel_settings == old(self).exit_tunnel_settings,
            final(self).current_exit == old(self).current_exit,
            final(self).exits == old(self).exits,
            old(self).wf() ==> final(self).wf(),
    {
        self.stats_server = None;
    }
}

} // verus!
