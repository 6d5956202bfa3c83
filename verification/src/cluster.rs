use vstd::prelude::*;
use vstd::string::StrSliceExecFns;

verus! {

/// The canonical RPC endpoint for a named network, if the name is one of
/// the closed set of known clusters.
pub open spec fn cluster_url_spec(cluster: Seq<char>) -> Option<Seq<char>> {
    if cluster == "mainnet-beta"@ {
        Some("https://api.mainnet-beta.solana.com"@)
    } else if cluster == "testnet"@ {
        Some("https://api.testnet.solana.com"@)
    } else if cluster == "devnet"@ {
        Some("https://api.devnet.solana.com"@)
    } else {
        None
    }
}

/// Character-for-character string equality.
fn str_eq(a: &str, b: &str) -> (r: bool)
    ensures
        r == (a@ == b@),
{
    let a_len = a.unicode_len();
    let b_len = b.unicode_len();
    if a_len != b_len {
        return false;
    }
    let mut i: usize = 0;
    while i < a_len
        invariant
            i <= a_len,
            a_len == a@.len(),
            b_len == b@.len(),
            a_len == b_len,
            forall|j: int| 0 <= j < i ==> a@[j] == b@[j],
        decreases a_len - i,
    {
        if a.get_char(i) != b.get_char(i) {
            return false;
        }
        i += 1;
    }
    proof {
        assert(a@ =~= b@);
    }
    true
}

/// Maps a named network to its canonical RPC endpoint. An unknown name is a
/// configuration error reported quietly as `None`, before any pipeline work
/// begins; no input aborts the process.
pub fn get_cluster_url(cluster: &str) -> (r: Option<&'static str>)
    ensures
        r is Some <==> cluster_url_spec(cluster@) is Some,
        (r matches Some(url) ==> cluster_url_spec(cluster@) == Some(url@)),
{
    if str_eq(cluster, "mainnet-beta") {
        Some("https://api.mainnet-beta.solana.com")
    } else if str_eq(cluster, "testnet") {
        Some("https://api.testnet.solana.com")
    } else if str_eq(cluster, "devnet") {
        Some("https://api.devnet.solana.com")
    } else {
        None
    }
}

} // verus!
