//! The saved SSH assets that connection profiles are made from: what the
//! connection dialog holds while it is edited, what is stored for a saved
//! host, and the tree of saved hosts that proxy chains are looked up in.

use vstd::prelude::*;
use crate::text::same_text;

verus! {

/// The fields of the SSH connection dialog, as the user typed them.
#[derive(Debug, Clone, PartialEq, Eq, Default)]
pub struct AssetSshConnectionDraft {
    pub name: String,
    pub host: String,
    pub user: String,
    pub port: String,
    pub auth_method: String,
    pub private_key_source: String,
    pub private_key_path: String,
    pub private_key_content: String,
    pub password: String,
    pub passphrase: String,
    pub remark: String,
    pub proxy_type: String,
    pub proxy_socks5_password: String,
}

/// How a connection reaches its host.
#[derive(Debug, Clone, PartialEq, Eq)]
pub enum ConnectionProxyProfile {
    /// Straight to the host.
    Direct,
    /// Through a SOCKS5 proxy.
    Socks5 { host: String, port: u16, username: Option<String>, password: Option<String> },
    /// Through another saved SSH host.
    SshAsset { asset_id: String },
}

/// What is stored for a saved SSH host.
#[derive(Debug, Clone, PartialEq, Eq)]
pub struct AssetSshConnectionSpec {
    pub host: String,
    pub user: String,
    pub port: String,
    pub auth_method: String,
    pub private_key_source: String,
    pub private_key_path: String,
    pub credential_ref: Option<String>,
    pub remark: String,
    pub proxy: ConnectionProxyProfile,
}

/// A saved asset: its identifier, its title, and its SSH settings if it is an SSH host.
#[derive(Debug, Clone, PartialEq, Eq)]
pub struct AssetNode {
    pub id: String,
    pub title: String,
    pub ssh: Option<AssetSshConnectionSpec>,
}

/// The saved assets, looked up by identifier (the first with a given identifier counts).
#[derive(Debug, Clone, PartialEq, Eq)]
pub struct AssetTree {
    pub nodes: Vec<AssetNode>,
}

/// The index of the first node with identifier `id`, or -1.
pub open spec fn node_index(nodes: Seq<AssetNode>, id: Seq<char>) -> int
    decreases nodes.len(),
{
    if nodes.len() == 0 {
        -1
    } else if nodes.last().id@ == id && node_index(nodes.drop_last(), id) < 0 {
        nodes.len() - 1
    } else {
        node_index(nodes.drop_last(), id)
    }
}

pub proof fn lemma_node_index_range(nodes: Seq<AssetNode>, id: Seq<char>)
    ensures
        -1 <= node_index(nodes, id) < nodes.len(),
        node_index(nodes, id) >= 0 ==> nodes[node_index(nodes, id)].id@ == id,
    decreases nodes.len(),
{
    if nodes.len() > 0 {
        lemma_node_index_range(nodes.drop_last(), id);
    }
}

impl AssetTree {
    pub open spec fn node_spec(&self, id: Seq<char>) -> Option<AssetNode> {
        let i = node_index(self.nodes@, id);
        if i < 0 { None } else { Some(self.nodes@[i]) }
    }

    pub open spec fn ssh_spec(&self, id: Seq<char>) -> Option<AssetSshConnectionSpec> {
        match self.node_spec(id) {
            Some(n) => n.ssh,
            None => None,
        }
    }

    fn find(&self, id: &str) -> (r: Option<usize>)
        ensures
            match r {
                Some(i) => i == node_index(self.nodes@, id@) && i < self.nodes@.len(),
                None => node_index(self.nodes@, id@) < 0,
            },
    {
        let mut i: usize = 0;
        while i < self.nodes.len()
            invariant
                i <= self.nodes@.len(),
                node_index(self.nodes@.take(i as int), id@) < 0,
            decreases self.nodes.len() - i,
        {
            let hit = same_text(self.nodes[i].id.as_str(), id);
            assert(self.nodes@.take(i + 1).drop_last() =~= self.nodes@.take(i as int));
            if hit {
                proof { lemma_node_index_prefix(self.nodes@, id@, i + 1); }
                return Some(i);
            }
            i = i + 1;
        }
        assert(self.nodes@.take(i as int) =~= self.nodes@);
        None
    }

    /// The node with identifier `id`.
    pub fn node(&self, id: &str) -> (r: Option<&AssetNode>)
        ensures
            match r {
                Some(n) => self.node_spec(id@) == Some(*n),
                None => self.node_spec(id@) is None,
            },
    {
        match self.find(id) {
            Some(i) => Some(&self.nodes[i]),
            None => None,
        }
    }

    /// The SSH settings of the node with identifier `id`, if it is an SSH host.
    pub fn ssh_connection_spec(&self, id: &str) -> (r: Option<&AssetSshConnectionSpec>)
        ensures
            match r {
                Some(s) => self.ssh_spec(id@) == Some(*s),
                None => self.ssh_spec(id@) is None,
            },
    {
        match self.node(id) {
            Some(n) => match &n.ssh {
                Some(s) => Some(s),
                None => None,
            },
            None => None,
        }
    }
}

/// A prefix that ends with the first match determines `node_index`.
proof fn lemma_node_index_prefix(nodes: Seq<AssetNode>, id: Seq<char>, k: int)
    requires
        0 < k <= nodes.len(),
        node_index(nodes.take(k), id) == k - 1,
    ensures
        node_index(nodes, id) == k - 1,
    decreases nodes.len() - k,
{
    if k < nodes.len() {
        assert(nodes.drop_last().take(k) =~= nodes.take(k));
        if k < nodes.len() - 1 {
            lemma_node_index_prefix(nodes.drop_last(), id, k);
        } else {
            assert(nodes.drop_last() =~= nodes.take(k));
        }
    } else {
        assert(nodes.take(k) =~= nodes);
    }
}

} // verus!
