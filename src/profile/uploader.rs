//! Settings of the permanent-storage gateway that profile images go to.
use vstd::prelude::*;
use vstd::string::StringExecFns;

verus! {

/// The gateway used when none is given: `https://arweave.net`.
pub open spec fn default_gateway() -> Seq<char> {
    seq!['h', 't', 't', 'p', 's', ':', '/', '/', 'a', 'r', 'w', 'e', 'a', 'v', 'e', '.', 'n', 'e', 't']
}

/// Where uploads go, and which wallet pays for them.
pub struct ArweaveUploader {
    wallet_path: Option<String>,
    gateway_url: String,
}

impl ArweaveUploader {
    /// The gateway URL.
    pub closed spec fn gateway(&self) -> Seq<char> {
        self.gateway_url@
    }

    /// The wallet path given at construction, if any.
    pub closed spec fn wallet(&self) -> Option<Seq<char>> {
        match self.wallet_path {
            Some(p) => Some(p@),
            None => None,
        }
    }

    /// An uploader for `gateway_url`, or the default gateway when none is given.
    pub fn new(wallet_path: Option<String>, gateway_url: Option<String>) -> (r: Self)
        ensures
            r.gateway() == (match gateway_url {
                Some(g) => g@,
                None => default_gateway(),
            }),
            r.wallet() == (match wallet_path {
                Some(p) => Some(p@),
                None => None::<Seq<char>>,
            }),
    {
        let gateway_url = match gateway_url {
            Some(g) => g,
            None => {
                let g = String::from_str("https://arweave.net");
                proof {
                    reveal_strlit("https://arweave.net");
                }
                assert(g@ =~= default_gateway());
                g
            },
        };
        ArweaveUploader { wallet_path, gateway_url }
    }

    /// The gateway URL.
    pub fn gateway_url(&self) -> (r: &String)
        ensures
            r@ == self.gateway(),
    {
        &self.gateway_url
    }

    /// The wallet path given at construction, if any.
    pub fn wallet_path(&self) -> (r: Option<&String>)
        ensures
            r matches Some(p) ==> self.wallet() == Some(p@),
            r is None ==> self.wallet() is None,
    {
        match &self.wallet_path {
            Some(p) => Some(p),
            None => None,
        }
    }

    /// The URI under which the gateway serves the upload `tx_id`: the gateway
    /// URL, a slash, and the id.
    pub fn uri_from_tx_id(&self, tx_id: &str) -> (r: String)
        ensures
            r@ == self.gateway() + seq!['/'] + tx_id@,
    {
        let base = self.gateway_url.clone();
        let with_slash = base.concat("/");
        proof {
            reveal_strlit("/");
        }
        with_slash.concat(tx_id)
    }
}

impl Default for ArweaveUploader {
    fn default() -> (r: Self)
        ensures
            r.gateway() == default_gateway(),
            r.wallet() is None,
    {
        Self::new(None, None)
    }
}

} // verus!
