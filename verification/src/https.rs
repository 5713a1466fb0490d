//! The HTTP surface of a node: which routes it offers, over which transport, and to whom.

use vstd::prelude::*;

verus! {

/// The largest body of a request, in bytes.
pub const MAX_BODY_BYTES: usize = 1_048_576;

/// How a route is called.
#[derive(Debug, Clone, Copy, PartialEq, Eq, Structural)]
pub enum Method {
    Get,
    Post,
}

/// What a route leads to.
#[derive(Debug, Clone, Copy, PartialEq, Eq, Structural)]
pub enum Endpoint {
    SubmitTx,
    GetTxByHash,
    LatestLedgerInfo,
    LedgerInfoByEpoch,
    Block,
    QuorumCert,
    ValidatorCount,
    DkgStatus,
    Randomness,
    SetFailpoint,
    MemoryProfile,
}

/// The settings of the server.
pub struct HttpsServer {
    pub address: String,
    /// The file of the certificate, for TLS.
    pub cert_pem: Option<String>,
    /// The file of the private key, for TLS.
    pub key_pem: Option<String>,
}

/// How the server is reached.
#[derive(Debug)]
pub enum Transport {
    Tls { cert_pem: String, key_pem: String },
    Plain,
}

/// The reply to a request that is refused.
#[derive(Debug)]
pub struct Refusal {
    pub status: u16,
    pub message: String,
}

impl Endpoint {
    /// Whether the endpoint is only there, and only served, over TLS.
    pub open spec fn needs_tls(self) -> bool {
        match self {
            Endpoint::DkgStatus | Endpoint::Randomness | Endpoint::SetFailpoint
            | Endpoint::MemoryProfile => false,
            _ => true,
        }
    }

    /// Whether the endpoint is only there, and only served, over TLS.
    pub fn is_sensitive(&self) -> (sensitive: bool)
        ensures
            sensitive == self.needs_tls(),
    {
        match self {
            Endpoint::DkgStatus | Endpoint::Randomness | Endpoint::SetFailpoint
            | Endpoint::MemoryProfile => false,
            _ => true,
        }
    }

    /// How the endpoint is called, and where it is.
    pub open spec fn place(self) -> (Method, Seq<char>) {
        match self {
            Endpoint::SubmitTx => (Method::Post, "/tx/submit_tx"@),
            Endpoint::GetTxByHash => (Method::Get, "/tx/get_tx_by_hash/:hash_value"@),
            Endpoint::LatestLedgerInfo => (Method::Get, "/consensus/latest_ledger_info"@),
            Endpoint::LedgerInfoByEpoch => (Method::Get, "/consensus/ledger_info/:epoch"@),
            Endpoint::Block => (Method::Get, "/consensus/block/:epoch/:round"@),
            Endpoint::QuorumCert => (Method::Get, "/consensus/qc/:epoch/:round"@),
            Endpoint::ValidatorCount => (Method::Get, "/consensus/validator_count/:epoch"@),
            Endpoint::DkgStatus => (Method::Get, "/dkg/status"@),
            Endpoint::Randomness => (Method::Get, "/dkg/randomness/:block_number"@),
            Endpoint::SetFailpoint => (Method::Post, "/set_failpoint"@),
            Endpoint::MemoryProfile => (Method::Post, "/mem_prof"@),
        }
    }

    pub fn route(&self) -> (route: (Method, &'static str))
        ensures
            (route.0, route.1@) == self.place(),
    {
        match self {
            Endpoint::SubmitTx => (Method::Post, "/tx/submit_tx"),
            Endpoint::GetTxByHash => (Method::Get, "/tx/get_tx_by_hash/:hash_value"),
            Endpoint::LatestLedgerInfo => (Method::Get, "/consensus/latest_ledger_info"),
            Endpoint::LedgerInfoByEpoch => (Method::Get, "/consensus/ledger_info/:epoch"),
            Endpoint::Block => (Method::Get, "/consensus/block/:epoch/:round"),
            Endpoint::QuorumCert => (Method::Get, "/consensus/qc/:epoch/:round"),
            Endpoint::ValidatorCount => (Method::Get, "/consensus/validator_count/:epoch"),
            Endpoint::DkgStatus => (Method::Get, "/dkg/status"),
            Endpoint::Randomness => (Method::Get, "/dkg/randomness/:block_number"),
            Endpoint::SetFailpoint => (Method::Post, "/set_failpoint"),
            Endpoint::MemoryProfile => (Method::Post, "/mem_prof"),
        }
    }
}

/// The endpoints of a server, in the order in which they are set up.
pub open spec fn endpoints(has_tls: bool) -> Seq<Endpoint> {
    let open = seq![
        Endpoint::DkgStatus,
        Endpoint::Randomness,
        Endpoint::SetFailpoint,
        Endpoint::MemoryProfile,
    ];
    if has_tls {
        seq![
            Endpoint::SubmitTx,
            Endpoint::GetTxByHash,
            Endpoint::LatestLedgerInfo,
            Endpoint::LedgerInfoByEpoch,
            Endpoint::Block,
            Endpoint::QuorumCert,
            Endpoint::ValidatorCount,
        ] + open
    } else {
        open
    }
}

/// Whether a text is exactly `other`.
fn is_text(text: &String, other: &str) -> (same: bool)
    ensures
        same == (text@ == other@),
{
    let owned = other.to_owned();
    *text == owned
}

/// What a request that came with the scheme `scheme` is told before it reaches an endpoint that
/// needs TLS; nothing where it came with TLS.
pub fn ensure_https(scheme: &Option<String>) -> (refusal: Option<Refusal>)
    ensures
        match scheme {
            Some(scheme) => refusal is None <==> scheme@ == "https"@,
            None => refusal is Some,
        },
        refusal matches Some(r) ==> r.status == 400 && r.message@ == "HTTPS required"@,
{
    let secure = match scheme {
        Some(scheme) => is_text(scheme, "https"),
        None => false,
    };
    if secure {
        None
    } else {
        Some(Refusal { status: 400, message: "HTTPS required".to_owned() })
    }
}

impl HttpsServer {
    pub fn new(address: String, cert_pem: Option<String>, key_pem: Option<String>) -> (server: Self)
        ensures
            server == (HttpsServer { address, cert_pem, key_pem }),
    {
        HttpsServer { address, cert_pem, key_pem }
    }

    /// Whether the server has all that TLS needs.
    pub open spec fn with_tls(&self) -> bool {
        self.cert_pem is Some && self.key_pem is Some
    }

    /// The endpoints that the server offers: the sensitive ones only with TLS.
    pub fn routes(&self) -> (routes: Vec<Endpoint>)
        ensures
            routes@ == endpoints(self.with_tls()),
    {
        let mut routes: Vec<Endpoint> = Vec::new();
        if self.cert_pem.is_some() && self.key_pem.is_some() {
            routes.push(Endpoint::SubmitTx);
            routes.push(Endpoint::GetTxByHash);
            routes.push(Endpoint::LatestLedgerInfo);
            routes.push(Endpoint::LedgerInfoByEpoch);
            routes.push(Endpoint::Block);
            routes.push(Endpoint::QuorumCert);
            routes.push(Endpoint::ValidatorCount);
        }
        routes.push(Endpoint::DkgStatus);
        routes.push(Endpoint::Randomness);
        routes.push(Endpoint::SetFailpoint);
        routes.push(Endpoint::MemoryProfile);
        assert(routes@ =~= endpoints(self.with_tls()));
        routes
    }

    /// How the server is reached: over TLS where it has all that TLS needs.
    pub fn transport(&self) -> (transport: Transport)
        ensures
            match transport {
                Transport::Tls { cert_pem, key_pem } => self.with_tls() && cert_pem@
                    == self.cert_pem->0@ && key_pem@ == self.key_pem->0@,
                Transport::Plain => !self.with_tls(),
            },
    {
        match (&self.cert_pem, &self.key_pem) {
            (Some(cert_pem), Some(key_pem)) => Transport::Tls {
                cert_pem: cert_pem.clone(),
                key_pem: key_pem.clone(),
            },
            _ => Transport::Plain,
        }
    }
}

/// An endpoint needs TLS exactly where it takes or gives transactions, or tells of the chain.
pub proof fn transactions_and_the_chain_need_tls(endpoint: Endpoint, server: HttpsServer)
    ensures
        endpoint.needs_tls() <==> endpoint == Endpoint::SubmitTx || endpoint
            == Endpoint::GetTxByHash || endpoint == Endpoint::LatestLedgerInfo || endpoint
            == Endpoint::LedgerInfoByEpoch || endpoint == Endpoint::Block || endpoint
            == Endpoint::QuorumCert || endpoint == Endpoint::ValidatorCount,
        server.with_tls() <==> server.cert_pem is Some && server.key_pem is Some,
{
}

/// No endpoint is set up twice.
pub proof fn endpoints_are_set_up_once(has_tls: bool)
    ensures
        endpoints(has_tls).no_duplicates(),
        endpoints(has_tls).len() == (if has_tls {
            11int
        } else {
            4
        }),
{
}

/// What changes a node is posted, and what only asks it is not. A path leads to one endpoint alone.
pub proof fn paths_lead_to_one_endpoint(endpoint: Endpoint)
    ensures
        endpoint.place().0 == Method::Post <==> endpoint == Endpoint::SubmitTx || endpoint
            == Endpoint::SetFailpoint || endpoint == Endpoint::MemoryProfile,
        endpoint.place().1 == "/tx/submit_tx"@ <==> endpoint == Endpoint::SubmitTx,
        endpoint.place().1 == "/tx/get_tx_by_hash/:hash_value"@ <==> endpoint
            == Endpoint::GetTxByHash,
        endpoint.place().1 == "/consensus/latest_ledger_info"@ <==> endpoint
            == Endpoint::LatestLedgerInfo,
        endpoint.place().1 == "/consensus/ledger_info/:epoch"@ <==> endpoint
            == Endpoint::LedgerInfoByEpoch,
        endpoint.place().1 == "/consensus/block/:epoch/:round"@ <==> endpoint == Endpoint::Block,
        endpoint.place().1 == "/consensus/qc/:epoch/:round"@ <==> endpoint == Endpoint::QuorumCert,
        endpoint.place().1 == "/consensus/validator_count/:epoch"@ <==> endpoint
            == Endpoint::ValidatorCount,
        endpoint.place().1 == "/dkg/status"@ <==> endpoint == Endpoint::DkgStatus,
        endpoint.place().1 == "/dkg/randomness/:block_number"@ <==> endpoint
            == Endpoint::Randomness,
        endpoint.place().1 == "/set_failpoint"@ <==> endpoint == Endpoint::SetFailpoint,
        endpoint.place().1 == "/mem_prof"@ <==> endpoint == Endpoint::MemoryProfile,
{
    reveal_strlit("/tx/submit_tx");
    reveal_strlit("/tx/get_tx_by_hash/:hash_value");
    reveal_strlit("/consensus/latest_ledger_info");
    reveal_strlit("/consensus/ledger_info/:epoch");
    reveal_strlit("/consensus/block/:epoch/:round");
    reveal_strlit("/consensus/qc/:epoch/:round");
    reveal_strlit("/consensus/validator_count/:epoch");
    reveal_strlit("/dkg/status");
    reveal_strlit("/dkg/randomness/:block_number");
    reveal_strlit("/set_failpoint");
    reveal_strlit("/mem_prof");
    let path = endpoint.place().1;
    assert(path.len() >= 9);
    assert("/tx/submit_tx"@[1] == 't');
    assert("/tx/get_tx_by_hash/:hash_value"@[1] == 't');
    assert("/consensus/latest_ledger_info"@[12] == 'a');
    assert("/consensus/ledger_info/:epoch"@[12] == 'e');
    assert("/consensus/block/:epoch/:round"@[1] == 'c');
    assert("/consensus/latest_ledger_info"@[1] == 'c');
    assert("/consensus/ledger_info/:epoch"@[1] == 'c');
    assert("/dkg/randomness/:block_number"@[1] == 'd');
}

/// A server without TLS offers no endpoint that needs it, and every other; a server with TLS
/// offers every endpoint.
pub proof fn sensitive_endpoints_need_tls(has_tls: bool, endpoint: Endpoint)
    ensures
        endpoints(has_tls).contains(endpoint) <==> has_tls || !endpoint.needs_tls(),
{
    let open = endpoints(false);
    let all = endpoints(true);
    if !endpoint.needs_tls() {
        assert(open[0] == Endpoint::DkgStatus && open[1] == Endpoint::Randomness && open[2]
            == Endpoint::SetFailpoint && open[3] == Endpoint::MemoryProfile);
        assert(open.contains(endpoint));
    }
    assert(all[0] == Endpoint::SubmitTx && all[1] == Endpoint::GetTxByHash && all[2]
        == Endpoint::LatestLedgerInfo && all[3] == Endpoint::LedgerInfoByEpoch && all[4]
        == Endpoint::Block && all[5] == Endpoint::QuorumCert && all[6] == Endpoint::ValidatorCount
        && all[7] == Endpoint::DkgStatus && all[8] == Endpoint::Randomness && all[9]
        == Endpoint::SetFailpoint && all[10] == Endpoint::MemoryProfile);
    assert(all.contains(endpoint));
}

} // verus!
