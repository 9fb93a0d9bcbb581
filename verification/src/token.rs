//! Token metadata as the indexer gathers it, and how an off-chain contract
//! metadata document completes it.
use vstd::prelude::*;

verus! {

/// An optional string, taken by its characters.
pub open spec fn opt_text(o: Option<String>) -> Option<Seq<char>> {
    match o {
        Some(s) => Some(s@),
        None => None,
    }
}

/// An optional byte vector, taken by its bytes.
pub open spec fn opt_bytes(o: Option<Vec<u8>>) -> Option<Seq<u8>> {
    match o {
        Some(b) => Some(b@),
        None => None,
    }
}

/// What the indexer learnt of one token contract. A value that could not be
/// had is `None`.
#[derive(Debug, Clone, PartialEq, Eq)]
pub struct TokenData {
    pub name: Option<String>,
    pub symbol: Option<String>,
    pub decimals: Option<u8>,
    /// The total supply, as the 32 big-endian bytes of a `uint256`.
    pub total_supply: Option<Vec<u8>>,
    pub contract_uri: Option<String>,
    /// Whether the token's metadata is not worth asking for again.
    pub skip_metadata: bool,
}

/// Token metadata, as plain values.
pub struct TokenDataView {
    pub name: Option<Seq<char>>,
    pub symbol: Option<Seq<char>>,
    pub decimals: Option<u8>,
    pub total_supply: Option<Seq<u8>>,
    pub contract_uri: Option<Seq<char>>,
    pub skip_metadata: bool,
}

impl View for TokenData {
    type V = TokenDataView;

    open spec fn view(&self) -> TokenDataView {
        TokenDataView {
            name: opt_text(self.name),
            symbol: opt_text(self.symbol),
            decimals: self.decimals,
            total_supply: opt_bytes(self.total_supply),
            contract_uri: opt_text(self.contract_uri),
            skip_metadata: self.skip_metadata,
        }
    }
}

impl TokenDataView {
    /// None of name, symbol, decimals and total supply is known.
    pub open spec fn is_empty(self) -> bool {
        &&& self.name is None
        &&& self.symbol is None
        &&& self.decimals is None
        &&& self.total_supply is None
    }

    /// Name, symbol, decimals and total supply are all known.
    pub open spec fn is_complete(self) -> bool {
        &&& self.name is Some
        &&& self.symbol is Some
        &&& self.decimals is Some
        &&& self.total_supply is Some
    }
}

impl TokenData {
    /// Whether none of name, symbol, decimals and total supply is known.
    pub fn is_empty(&self) -> (r: bool)
        ensures
            r == self@.is_empty(),
    {
        self.name.is_none() && self.symbol.is_none() && self.decimals.is_none()
            && self.total_supply.is_none()
    }

    /// Whether name, symbol, decimals and total supply are all known.
    pub fn is_complete(&self) -> (r: bool)
        ensures
            r == self@.is_complete(),
    {
        self.name.is_some() && self.symbol.is_some() && self.decimals.is_some()
            && self.total_supply.is_some()
    }
}

/// No token's metadata is both complete and empty.
pub proof fn lemma_complete_is_not_empty(data: TokenDataView)
    requires
        data.is_complete(),
    ensures
        !data.is_empty(),
{
}

/// The metadata document a token's contract URI names or holds.
#[derive(Debug, Clone, PartialEq, Eq)]
pub struct ContractURIData {
    pub name: String,
    pub symbol: Option<String>,
}

/// A metadata document, as plain values.
pub struct ContractURIDataView {
    pub name: Seq<char>,
    pub symbol: Option<Seq<char>>,
}

impl View for ContractURIData {
    type V = ContractURIDataView;

    open spec fn view(&self) -> ContractURIDataView {
        ContractURIDataView { name: self.name@, symbol: opt_text(self.symbol) }
    }
}

/// An optional metadata document, as plain values.
pub open spec fn opt_document(o: Option<ContractURIData>) -> Option<ContractURIDataView> {
    match o {
        Some(d) => Some(d@),
        None => None,
    }
}

/// Where a token's metadata document is to come from.
#[derive(Debug, Clone, PartialEq, Eq)]
pub enum ContractUriLookup {
    /// There is nothing to look up: the metadata is complete, or there is no URI.
    Skip,
    /// The URI is a URL: the document is to be fetched from it, as JSON.
    Fetch(String),
    /// The URI is no URL: it is taken to be the JSON document itself.
    ParseInline(String),
}

/// A lookup, as plain values.
pub enum ContractUriLookupView {
    Skip,
    Fetch(Seq<char>),
    ParseInline(Seq<char>),
}

impl View for ContractUriLookup {
    type V = ContractUriLookupView;

    open spec fn view(&self) -> ContractUriLookupView {
        match self {
            ContractUriLookup::Skip => ContractUriLookupView::Skip,
            ContractUriLookup::Fetch(u) => ContractUriLookupView::Fetch(u@),
            ContractUriLookup::ParseInline(u) => ContractUriLookupView::ParseInline(u@),
        }
    }
}

/// Whether the `url` crate parses `text` as an absolute URL.
pub uninterp spec fn url_parses(text: Seq<char>) -> bool;

/// Calls `url::Url::parse` and tells whether it succeeded. The contract claims
/// only that the answer depends on `text` alone.
#[verifier::external_body]
fn parses_as_url(text: &str) -> (r: bool)
    ensures
        r == url_parses(text@),
{
    url::Url::parse(text).is_ok()
}

/// Where the metadata document of `data` comes from, given whether its contract
/// URI is a URL.
pub open spec fn spec_lookup(data: TokenDataView, uri_is_url: bool) -> ContractUriLookupView {
    if data.is_complete() {
        ContractUriLookupView::Skip
    } else {
        match data.contract_uri {
            None => ContractUriLookupView::Skip,
            Some(uri) => if uri_is_url {
                ContractUriLookupView::Fetch(uri)
            } else {
                ContractUriLookupView::ParseInline(uri)
            },
        }
    }
}

/// The metadata with gaps filled from a document: a missing name is taken from
/// the document, and a missing symbol is taken from it too (it may have none).
/// Nothing else changes, and nothing changes without a document.
pub open spec fn spec_merge(data: TokenDataView, document: Option<ContractURIDataView>) -> TokenDataView {
    match document {
        None => data,
        Some(doc) => TokenDataView {
            name: if data.name is None { Some(doc.name) } else { data.name },
            symbol: if data.symbol is None { doc.symbol } else { data.symbol },
            ..data
        },
    }
}

impl TokenData {
    /// Where the metadata document is to come from, given whether the contract
    /// URI is a URL.
    pub fn choose_contract_uri_lookup(&self, uri_is_url: bool) -> (r: ContractUriLookup)
        ensures
            r@ == spec_lookup(self@, uri_is_url),
    {
        if self.is_complete() {
            return ContractUriLookup::Skip;
        }
        match &self.contract_uri {
            None => ContractUriLookup::Skip,
            Some(uri) => if uri_is_url {
                ContractUriLookup::Fetch(uri.clone())
            } else {
                ContractUriLookup::ParseInline(uri.clone())
            },
        }
    }

    /// Where the metadata document is to come from: nowhere for complete
    /// metadata or without a contract URI; else from the URI where it parses as
    /// a URL, and from the URI's own text where it does not.
    pub fn contract_uri_lookup(&self) -> (r: ContractUriLookup)
        ensures
            r@ == spec_lookup(
                self@,
                match self.contract_uri {
                    Some(uri) => url_parses(uri@),
                    None => false,
                },
            ),
    {
        let uri_is_url = match &self.contract_uri {
            Some(uri) => parses_as_url(uri.as_str()),
            None => false,
        };
        self.choose_contract_uri_lookup(uri_is_url)
    }

    /// Fills the gaps of the metadata from the document found, if one was.
    pub fn populate_with_contract_uri(self, document: Option<ContractURIData>) -> (r: TokenData)
        ensures
            r@ == spec_merge(self@, opt_document(document)),
    {
        let mut data = self;
        match document {
            None => {},
            Some(doc) => {
                if data.name.is_none() {
                    data.name = Some(doc.name);
                }
                if data.symbol.is_none() {
                    data.symbol = doc.symbol;
                }
            },
        }
        data
    }
}

/// A document never overwrites a name or a symbol already known, and never
/// touches decimals, total supply, contract URI or the skip mark.
pub proof fn lemma_merge_keeps_known_values(data: TokenDataView, document: Option<ContractURIDataView>)
    ensures
        ({
            let merged = spec_merge(data, document);
            &&& data.name is Some ==> merged.name == data.name
            &&& data.symbol is Some ==> merged.symbol == data.symbol
            &&& merged.decimals == data.decimals
            &&& merged.total_supply == data.total_supply
            &&& merged.contract_uri == data.contract_uri
            &&& merged.skip_metadata == data.skip_metadata
        }),
{
}

/// Merging the same document twice gives what merging it once gives.
pub proof fn lemma_merge_idempotent(data: TokenDataView, document: Option<ContractURIDataView>)
    ensures
        spec_merge(spec_merge(data, document), document) == spec_merge(data, document),
{
}

/// Complete metadata is neither looked up nor changed by a document.
pub proof fn lemma_complete_metadata_is_final(
    data: TokenDataView,
    uri_is_url: bool,
    document: Option<ContractURIDataView>,
)
    requires
        data.is_complete(),
    ensures
        spec_lookup(data, uri_is_url) is Skip,
        spec_merge(data, document) == data,
{
}

/// After a document is merged, the name is known.
pub proof fn lemma_document_gives_name(data: TokenDataView, document: ContractURIDataView)
    ensures
        spec_merge(data, Some(document)).name is Some,
{
}

/// A document fills every gap it can: a missing name becomes the document's
/// name, and a missing symbol becomes the document's symbol.
pub proof fn lemma_document_fills_gaps(data: TokenDataView, document: ContractURIDataView)
    ensures
        data.name is None ==> spec_merge(data, Some(document)).name == Some(document.name),
        data.symbol is None ==> spec_merge(data, Some(document)).symbol == document.symbol,
        spec_merge(data, None) == data,
{
}

/// Metadata that lacks any of name, symbol, decimals and total supply, and has a
/// contract URI, is looked up: fetched where the URI is a URL, parsed inline
/// where it is not. Nothing is looked up without a URI or for complete metadata.
pub proof fn lemma_incomplete_metadata_is_looked_up(data: TokenDataView, uri_is_url: bool)
    ensures
        ({
            let complete = data.name is Some && data.symbol is Some && data.decimals is Some
                && data.total_supply is Some;
            &&& (forall|uri: Seq<char>| !complete && data.contract_uri == Some(uri) ==> spec_lookup(
                data,
                uri_is_url,
            ) == if uri_is_url {
                ContractUriLookupView::Fetch(uri)
            } else {
                ContractUriLookupView::ParseInline(uri)
            })
            &&& (data.contract_uri is None ==> spec_lookup(data, uri_is_url) is Skip)
            &&& (complete ==> spec_lookup(data, uri_is_url) is Skip)
        }),
{
}

} // verus!
