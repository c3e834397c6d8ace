use vstd::prelude::*;
use vstd::string::*;
use rand::seq::SliceRandom;
use crate::address::string_from_chars;
use crate::error::EthActivationV2Error;
use crate::key_policy::{KeyPair, MetamaskCtx};
use crate::types::EthNode;

verus! {

/// Whether a text parses as a URI.
pub uninterp spec fn uri_parses(url: Seq<char>) -> bool;

/// Relies on http's `FromStr for Uri`: whether the text parses as a URI.
#[verifier::external_body]
fn parses_as_uri(url: &str) -> (r: bool)
    ensures
        r == uri_parses(url@),
{
    url.parse::<http::Uri>().is_ok()
}

/// Relies on rand's `SliceRandom::shuffle` with the thread-local generator: the slice
/// is put in a random order, keeping its items.
#[verifier::external_body]
fn shuffle_nodes(nodes: &mut Vec<HttpTransportNode>)
    ensures
        final(nodes)@.to_multiset() == old(nodes)@.to_multiset(),
{
    nodes.as_mut_slice().shuffle(&mut rand::thread_rng())
}

/// An endpoint whose URI has been checked.
#[derive(Debug)]
pub struct HttpTransportNode {
    pub uri: String,
    pub gui_auth: bool,
}

impl HttpTransportNode {
    pub fn duplicate(&self) -> (r: HttpTransportNode)
        ensures
            r == *self,
    {
        HttpTransportNode { uri: self.uri.clone(), gui_auth: self.gui_auth }
    }
}

/// What signed ("GUI auth") requests are made with.
#[derive(Debug)]
pub struct GuiAuthValidationGenerator {
    pub coin_ticker: String,
    pub secret: [u8; 32],
    pub address: String,
}

/// A transport over some HTTP endpoints.
#[derive(Debug)]
pub struct HttpTransport {
    pub nodes: Vec<HttpTransportNode>,
    pub gui_auth_validation_generator: Option<GuiAuthValidationGenerator>,
}

/// A transport through the host-delegated provider.
#[derive(Debug)]
pub struct MetamaskTransport {
    pub ctx: MetamaskCtx,
    pub coin_ticker: String,
}

#[derive(Debug)]
pub enum Web3Transport {
    Http(HttpTransport),
    Metamask(MetamaskTransport),
}

/// A client over one live endpoint, with what the probe learnt of it.
#[derive(Debug)]
pub struct Web3Instance {
    pub web3: Web3Transport,
    /// Whether the node runs the Parity implementation, which has an extended nonce API.
    pub is_parity: bool,
}

/// The transports of a coin: one over every configured endpoint, for broadcasts, and
/// one per live endpoint, for quorum reads.
#[derive(Debug)]
pub struct EthTransports {
    pub web3: Web3Transport,
    pub web3_instances: Vec<Web3Instance>,
}

pub fn duplicate_nodes(nodes: &Vec<HttpTransportNode>) -> (r: Vec<HttpTransportNode>)
    ensures
        r@ == nodes@,
{
    let mut out: Vec<HttpTransportNode> = Vec::new();
    let mut i: usize = 0;
    while i < nodes.len()
        invariant
            i <= nodes@.len(),
            out@ == nodes@.subrange(0, i as int),
        decreases nodes@.len() - i,
    {
        out.push(nodes[i].duplicate());
        assert(out@ =~= nodes@.subrange(0, i + 1));
        i = i + 1;
    }
    assert(out@ =~= nodes@);
    out
}

/// The endpoint that a node of the request stands for.
pub open spec fn http_node_of(n: EthNode) -> HttpTransportNode {
    HttpTransportNode { uri: n.url, gui_auth: n.gui_auth }
}

/// The least index from `k` on of a node whose URL does not parse, if any.
pub open spec fn first_bad_url_from(nodes: Seq<EthNode>, k: int) -> Option<int>
    decreases nodes.len() - k,
{
    if k < 0 || k >= nodes.len() {
        None
    } else if !uri_parses(nodes[k].url@) {
        Some(k)
    } else {
        first_bad_url_from(nodes, k + 1)
    }
}

/// The least index of a node whose URL does not parse, if any.
pub open spec fn first_bad_url(nodes: Seq<EthNode>) -> Option<int> {
    first_bad_url_from(nodes, 0)
}

pub open spec fn unparsable_suffix() -> Seq<char> {
    seq![' ', 'c', 'o', 'u', 'l', 'd', ' ', 'n', 'o', 't', ' ', 'b', 'e', ' ', 'p', 'a', 'r', 's', 'e', 'd', '.']
}

/// The message of the error on an URL that does not parse.
pub open spec fn unparsable_msg(url: Seq<char>) -> Seq<char> {
    url + unparsable_suffix()
}

fn unparsable_message(url: &str) -> (r: String)
    ensures
        r@ == unparsable_msg(url@),
{
    let suffix = [' ', 'c', 'o', 'u', 'l', 'd', ' ', 'n', 'o', 't', ' ', 'b', 'e', ' ', 'p', 'a', 'r', 's', 'e', 'd', '.'];
    assert(suffix@ =~= unparsable_suffix());
    let n = url.unicode_len();
    let mut out: Vec<char> = Vec::new();
    let mut i: usize = 0;
    while i < n
        invariant
            n == url@.len(),
            i <= n,
            out@ == url@.subrange(0, i as int),
        decreases n - i,
    {
        out.push(url.get_char(i));
        assert(out@ =~= url@.subrange(0, i + 1));
        i = i + 1;
    }
    let mut j: usize = 0;
    while j < 21
        invariant
            n == url@.len(),
            suffix@ == unparsable_suffix(),
            j <= 21,
            out@ == url@ + unparsable_suffix().subrange(0, j as int),
        decreases 21 - j,
    {
        out.push(suffix[j]);
        assert(out@ =~= url@ + unparsable_suffix().subrange(0, j + 1));
        j = j + 1;
    }
    assert(out@ =~= unparsable_msg(url@));
    string_from_chars(&out)
}

/// Checks the nodes of a request and puts them in a random order: there must be at
/// least one, and every URL must parse.
pub fn prepare_http_nodes(eth_nodes: &Vec<EthNode>) -> (r: Result<Vec<HttpTransportNode>, EthActivationV2Error>)
    ensures
        eth_nodes@.len() == 0 ==> (r matches Err(e) && e is AtLeastOneNodeRequired),
        eth_nodes@.len() > 0 && first_bad_url(eth_nodes@) is Some ==> (r matches Err(e)
            && (e matches EthActivationV2Error::InvalidPayload(m)
            && m@ == unparsable_msg(eth_nodes@[first_bad_url(eth_nodes@)->0].url@))),
        eth_nodes@.len() > 0 && first_bad_url(eth_nodes@) is None ==> (r matches Ok(v)
            && v@.to_multiset() == eth_nodes@.map_values(|n: EthNode| http_node_of(n)).to_multiset()),
{
    if eth_nodes.len() == 0 {
        return Err(EthActivationV2Error::AtLeastOneNodeRequired);
    }
    let mut http_nodes: Vec<HttpTransportNode> = Vec::new();
    let mut i: usize = 0;
    while i < eth_nodes.len()
        invariant
            i <= eth_nodes@.len(),
            forall|j: int| 0 <= j < i ==> uri_parses(#[trigger] eth_nodes@[j].url@),
            first_bad_url(eth_nodes@) == first_bad_url_from(eth_nodes@, i as int),
            http_nodes@ == eth_nodes@.subrange(0, i as int).map_values(|n: EthNode| http_node_of(n)),
        decreases eth_nodes@.len() - i,
    {
        let node = &eth_nodes[i];
        if !parses_as_uri(node.url.as_str()) {
            return Err(EthActivationV2Error::InvalidPayload(unparsable_message(node.url.as_str())));
        }
        assert(first_bad_url_from(eth_nodes@, i as int) == first_bad_url_from(eth_nodes@, i + 1));
        http_nodes.push(HttpTransportNode { uri: node.url.clone(), gui_auth: node.gui_auth });
        assert(http_nodes@ =~= eth_nodes@.subrange(0, i + 1).map_values(|n: EthNode| http_node_of(n)));
        i = i + 1;
    }
    assert(eth_nodes@.subrange(0, eth_nodes@.len() as int) =~= eth_nodes@);
    shuffle_nodes(&mut http_nodes);
    Ok(http_nodes)
}


/// The lower-case name of the node implementation whose version is looked for.
pub open spec fn parity_word() -> Seq<char> {
    seq!['p', 'a', 'r', 'i', 't', 'y']
}

/// `c` is the lower-case letter `lower` in either case.
pub open spec fn ci_eq(c: char, lower: char) -> bool {
    c == lower || c as u32 + 32 == lower as u32
}

pub open spec fn parity_at(v: Seq<char>, i: int) -> bool {
    forall|k: int| 0 <= k < 6 ==> ci_eq(#[trigger] v[i + k], parity_word()[k])
}

/// The version text names Parity, in any case.
pub open spec fn mentions_parity(v: Seq<char>) -> bool {
    exists|i: int| 0 <= i && i + 6 <= v.len() && #[trigger] parity_at(v, i)
}

/// Whether a node's version text names the Parity implementation, in any case.
pub fn is_parity_version(version: &str) -> (r: bool)
    ensures
        r == mentions_parity(version@),
{
    let word = ['p', 'a', 'r', 'i', 't', 'y'];
    let n = version.unicode_len();
    if n < 6 {
        return false;
    }
    let mut i: usize = 0;
    while i <= n - 6
        invariant
            n == version@.len(),
            n >= 6,
            i <= n - 5,
            word@ == parity_word(),
            forall|j: int| 0 <= j < i ==> !#[trigger] parity_at(version@, j),
        decreases n - i,
    {
        let mut k: usize = 0;
        let mut all = true;
        while k < 6
            invariant
                n == version@.len(),
                i + 6 <= n,
                word@ == parity_word(),
                k <= 6,
                all == (forall|m: int| 0 <= m < k ==> ci_eq(#[trigger] version@[i + m], parity_word()[m])),
            decreases 6 - k,
        {
            let c = version.get_char(i + k);
            let w = word[k];
            if !(c == w || c as u32 + 32 == w as u32) {
                all = false;
            }
            k = k + 1;
        }
        if all {
            assert(parity_at(version@, i as int));
            return true;
        }
        i = i + 1;
    }
    false
}

/// The positions of the endpoints that answered, in order.
pub open spec fn live_indices(versions: Seq<Option<String>>) -> Seq<int>
    decreases versions.len(),
{
    if versions.len() == 0 {
        seq![]
    } else if versions.last() is Some {
        live_indices(versions.drop_last()).push(versions.len() - 1)
    } else {
        live_indices(versions.drop_last())
    }
}

/// A transport over exactly `nodes` whose signed requests carry this ticker, account
/// and secret.
pub open spec fn is_single_transport(
    t: Web3Transport,
    ticker: Seq<char>,
    address: Seq<char>,
    secret: [u8; 32],
    nodes: Seq<HttpTransportNode>,
) -> bool {
    t matches Web3Transport::Http(h) && h.nodes@ == nodes && (h.gui_auth_validation_generator matches Some(g)
        && g.coin_ticker@ == ticker && g.address@ == address && g.secret == secret)
}

/// A transport over some endpoints that signs its authenticated requests with the key pair.
pub fn build_single_http_transport(
    coin_ticker: String,
    address: String,
    key_pair: &KeyPair,
    nodes: Vec<HttpTransportNode>,
) -> (r: Web3Transport)
    ensures
        is_single_transport(r, coin_ticker@, address@, key_pair.secret, nodes@),
{
    Web3Transport::Http(HttpTransport {
        nodes,
        gui_auth_validation_generator: Some(GuiAuthValidationGenerator {
            coin_ticker,
            secret: key_pair.secret,
            address,
        }),
    })
}

/// The transports that the probes allow: `versions[i]` is what the endpoint `nodes[i]`
/// reported as its version, or `None` where it did not answer.
pub open spec fn transports_match_probes(
    t: EthTransports,
    ticker: Seq<char>,
    address: Seq<char>,
    secret: [u8; 32],
    nodes: Seq<HttpTransportNode>,
    versions: Seq<Option<String>>,
) -> bool {
    &&& is_single_transport(t.web3, ticker, address, secret, nodes)
    &&& t.web3_instances@.len() == live_indices(versions).len()
    &&& forall|j: int| 0 <= j < live_indices(versions).len() ==> {
        let i = #[trigger] live_indices(versions)[j];
        &&& is_single_transport(t.web3_instances@[j].web3, ticker, address, secret, seq![nodes[i]])
        &&& t.web3_instances@[j].is_parity == mentions_parity(versions[i]->0@)
    }
}

/// Builds the transports of a coin from the outcome of probing each endpoint: a client
/// per endpoint that answered, and one over every endpoint for broadcasts. Fails when
/// no endpoint answered.
pub fn build_http_transport(
    coin_ticker: String,
    address: String,
    key_pair: &KeyPair,
    http_nodes: Vec<HttpTransportNode>,
    versions: Vec<Option<String>>,
) -> (r: Result<EthTransports, EthActivationV2Error>)
    requires
        versions@.len() == http_nodes@.len(),
    ensures
        r is Ok <==> live_indices(versions@).len() > 0,
        r matches Ok(t) ==> transports_match_probes(t, coin_ticker@, address@, key_pair.secret, http_nodes@, versions@),
        http_nodes@.len() == 0 ==> (r matches Err(e) && e is AtLeastOneNodeRequired),
        http_nodes@.len() > 0 ==> (r matches Err(e) ==> e is UnreachableNodes),
{
    if http_nodes.len() == 0 {
        assert(versions@ =~= Seq::<Option<String>>::empty());
        return Err(EthActivationV2Error::AtLeastOneNodeRequired);
    }
    let mut web3_instances: Vec<Web3Instance> = Vec::new();
    let mut i: usize = 0;
    while i < http_nodes.len()
        invariant
            versions@.len() == http_nodes@.len(),
            i <= http_nodes@.len(),
            web3_instances@.len() == live_indices(versions@.subrange(0, i as int)).len(),
            forall|j: int| 0 <= j < web3_instances@.len() ==> {
                let m = #[trigger] live_indices(versions@.subrange(0, i as int))[j];
                &&& is_single_transport(web3_instances@[j].web3, coin_ticker@, address@, key_pair.secret, seq![http_nodes@[m]])
                &&& web3_instances@[j].is_parity == mentions_parity(versions@[m]->0@)
            },
        decreases http_nodes@.len() - i,
    {
        let ghost before = live_indices(versions@.subrange(0, i as int));
        assert(versions@.subrange(0, i + 1).drop_last() =~= versions@.subrange(0, i as int));
        match &versions[i] {
            Some(v) => {
                let node = vec![http_nodes[i].duplicate()];
                assert(node@ =~= seq![http_nodes@[i as int]]);
                let web3 = build_single_http_transport(coin_ticker.clone(), address.clone(), key_pair, node);
                let is_parity = is_parity_version(v.as_str());
                web3_instances.push(Web3Instance { web3, is_parity });
            },
            None => {},
        }
        i = i + 1;
    }
    assert(versions@.subrange(0, i as int) =~= versions@);
    if web3_instances.len() == 0 {
        return Err(EthActivationV2Error::UnreachableNodes("Failed to get client version for all nodes".to_owned()));
    }
    let web3 = build_single_http_transport(coin_ticker, address, key_pair, http_nodes);
    Ok(EthTransports { web3, web3_instances })
}

/// The transport through the host-delegated provider: one logical endpoint, which is
/// never probed and never has the extended nonce API.
pub fn build_metamask_transport(metamask_ctx: MetamaskCtx, coin_ticker: String) -> (r: EthTransports)
    ensures
        r.web3 == Web3Transport::Metamask(MetamaskTransport { ctx: metamask_ctx, coin_ticker }),
        r.web3_instances@.len() == 1,
        r.web3_instances@[0].web3 == r.web3,
        !r.web3_instances@[0].is_parity,
{
    let instance = Web3Transport::Metamask(MetamaskTransport {
        ctx: MetamaskCtx { account_address: metamask_ctx.account_address.clone() },
        coin_ticker: coin_ticker.clone(),
    });
    let web3 = Web3Transport::Metamask(MetamaskTransport { ctx: metamask_ctx, coin_ticker });
    EthTransports { web3, web3_instances: vec![Web3Instance { web3: instance, is_parity: false }] }
}


/// The same transport, with signed requests tagged with another ticker.
pub open spec fn retagged(t: Web3Transport, ticker: Seq<char>, r: Web3Transport) -> bool {
    match t {
        Web3Transport::Http(h) => r matches Web3Transport::Http(h2) && h2.nodes@ == h.nodes@ && match h.gui_auth_validation_generator {
            None => h2.gui_auth_validation_generator is None,
            Some(g) => h2.gui_auth_validation_generator matches Some(g2) && g2.coin_ticker@ == ticker
                && g2.secret == g.secret && g2.address == g.address,
        },
        Web3Transport::Metamask(m) => r == t,
    }
}

impl Web3Transport {
    /// A copy of the transport whose signed requests carry `ticker`.
    pub fn with_ticker(&self, ticker: &String) -> (r: Web3Transport)
        ensures
            retagged(*self, ticker@, r),
    {
        match self {
            Web3Transport::Http(h) => {
                let gui = match &h.gui_auth_validation_generator {
                    None => None,
                    Some(g) => Some(GuiAuthValidationGenerator {
                        coin_ticker: ticker.clone(),
                        secret: g.secret,
                        address: g.address.clone(),
                    }),
                };
                Web3Transport::Http(HttpTransport { nodes: duplicate_nodes(&h.nodes), gui_auth_validation_generator: gui })
            },
            Web3Transport::Metamask(m) => Web3Transport::Metamask(MetamaskTransport {
                ctx: m.ctx.duplicate(),
                coin_ticker: m.coin_ticker.clone(),
            }),
        }
    }
}

} // verus!
