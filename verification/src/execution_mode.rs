//! The trust mode of a deployment: where execution data comes from, and
//! whether it has to be checked against a proof before it is believed.
//!
//! A mode is built once from the resolved configuration and only read after
//! that. It records intent; it verifies nothing itself.

use std::sync::Arc;

use url::Url;
use vstd::prelude::*;

use crate::error::{no_endpoint_text, ClientError, ErrorKind};

verus! {

/// `url::Url`, carried through as an opaque value.
#[verifier::external_type_specification]
#[verifier::external_body]
pub struct ExUrl(url::Url);

/// How execution data is sourced.
///
/// `Full` believes what the primary endpoint answers. `Verifiable` still asks
/// an endpoint for the raw value, and names the proof endpoint against which
/// every such value is checked.
#[derive(Debug, Clone)]
pub enum ExecutionMode {
    Full(Arc<Vec<String>>),
    Verifiable(Arc<Vec<String>>, Arc<Url>),
}

impl ExecutionMode {
    /// The execution endpoints, in the order in which they were configured.
    pub open spec fn endpoints(&self) -> Seq<String> {
        match self {
            ExecutionMode::Full(rpcs) => rpcs@,
            ExecutionMode::Verifiable(rpcs, _) => rpcs@,
        }
    }

    /// The proof endpoint: present in `Verifiable`, absent in `Full`.
    pub open spec fn proof_endpoint(&self) -> Option<Url> {
        match self {
            ExecutionMode::Full(_) => None,
            ExecutionMode::Verifiable(_, api) => Some(**api),
        }
    }

    /// Whether values have to be checked against a proof.
    pub open spec fn verifiable(&self) -> bool {
        self is Verifiable
    }

    /// The text of the first endpoint listed, if there is one.
    pub open spec fn primary_endpoint(&self) -> Option<Seq<char>> {
        if self.endpoints().len() > 0 {
            Some(self.endpoints()[0]@)
        } else {
            None
        }
    }

    /// The mode that a configuration describes.
    ///
    /// | endpoints | proof endpoint | mode |
    /// |---|---|---|
    /// | given | given | `Verifiable` with both |
    /// | given | absent | `Full` with the endpoints |
    /// | absent | either | `Full` with no endpoint |
    pub open spec fn configured(
        execution_rpcs: Option<Vec<String>>,
        execution_verifiable_api: Option<Url>,
        mode: ExecutionMode,
    ) -> bool {
        match (execution_rpcs, execution_verifiable_api) {
            (Some(rpcs), Some(api)) => {
                &&& mode is Verifiable
                &&& mode.endpoints() == rpcs@
                &&& mode.proof_endpoint() == Some(api)
            },
            (Some(rpcs), None) => {
                &&& mode is Full
                &&& mode.endpoints() == rpcs@
            },
            (None, _) => {
                &&& mode is Full
                &&& mode.endpoints() == Seq::<String>::empty()
            },
        }
    }

    /// Builds the mode from the configured endpoints.
    ///
    /// Endpoints without a proof endpoint, or no endpoints at all, give `Full`;
    /// a missing endpoint list is not an error here, it shows at the first
    /// call of [`ExecutionMode::get_rpc`].
    pub fn from_urls(
        execution_rpcs: Option<Vec<String>>,
        execution_verifiable_api: Option<Url>,
    ) -> (mode: Self)
        ensures
            Self::configured(execution_rpcs, execution_verifiable_api, mode),
    {
        match (execution_rpcs, execution_verifiable_api) {
            (Some(rpcs), Some(api)) => ExecutionMode::Verifiable(Arc::new(rpcs), Arc::new(api)),
            (Some(rpcs), None) => ExecutionMode::Full(Arc::new(rpcs)),
            (None, _) => ExecutionMode::Full(Arc::new(Vec::new())),
        }
    }

    /// The primary execution endpoint: the first one listed.
    ///
    /// Fails, without any retry, when no endpoint is configured.
    pub fn get_rpc(&self) -> (r: Result<&str, ClientError>)
        ensures
            match self.primary_endpoint() {
                Some(text) => r is Ok && r->Ok_0@ == text,
                None => r is Err && r->Err_0.kind == ErrorKind::ConfigurationError
                    && r->Err_0.description() == no_endpoint_text(),
            },
    {
        match self {
            ExecutionMode::Full(rpcs) => {
                if rpcs.len() == 0 {
                    return Err(ClientError::configuration());
                }
                Ok(rpcs[0].as_str())
            },
            ExecutionMode::Verifiable(rpcs, _) => {
                if rpcs.len() == 0 {
                    return Err(ClientError::configuration());
                }
                Ok(rpcs[0].as_str())
            },
        }
    }

    /// The proof endpoint, if this mode has one.
    pub fn get_verifiable_api(&self) -> (r: Option<&Url>)
        ensures
            match r {
                Some(api) => self.proof_endpoint() == Some(*api),
                None => self.proof_endpoint() is None,
            },
    {
        match self {
            ExecutionMode::Verifiable(_, api) => Some(api),
            _ => None,
        }
    }

    /// Every execution endpoint, in configured order.
    pub fn get_all_rpcs(&self) -> (r: &[String])
        ensures
            r@ == self.endpoints(),
    {
        match self {
            ExecutionMode::Full(rpcs) => rpcs.as_slice(),
            ExecutionMode::Verifiable(rpcs, _) => rpcs.as_slice(),
        }
    }

    /// Whether this mode was built with a proof endpoint.
    pub fn is_verifiable(&self) -> (b: bool)
        ensures
            b == self.verifiable(),
    {
        matches!(self, ExecutionMode::Verifiable(_, _))
    }

    /// Endpoints together with a proof endpoint give a verifiable mode that
    /// hands back that proof endpoint and those endpoints, in their order.
    pub proof fn lemma_both_given_is_verifiable(
        endpoints: Vec<String>,
        proof_api: Url,
        mode: ExecutionMode,
    )
        requires
            endpoints@.len() > 0,
            Self::configured(Some(endpoints), Some(proof_api), mode),
        ensures
            mode.verifiable(),
            mode.proof_endpoint() == Some(proof_api),
            mode.endpoints() == endpoints@,
            mode.primary_endpoint() == Some(endpoints@[0]@),
    {
    }

    /// Endpoints without a proof endpoint give a full mode, which has no
    /// proof endpoint.
    pub proof fn lemma_endpoints_alone_is_full(endpoints: Vec<String>, mode: ExecutionMode)
        requires
            Self::configured(Some(endpoints), None, mode),
        ensures
            mode is Full,
            !mode.verifiable(),
            mode.proof_endpoint() is None,
            mode.endpoints() == endpoints@,
    {
    }

    /// Without endpoints the mode is full and empty whatever the proof
    /// endpoint was, and it has no primary endpoint to give.
    pub proof fn lemma_no_endpoints_is_empty_full(proof_api: Option<Url>, mode: ExecutionMode)
        requires
            Self::configured(None, proof_api, mode),
        ensures
            mode is Full,
            mode.endpoints().len() == 0,
            mode.proof_endpoint() is None,
            mode.primary_endpoint() is None,
    {
    }

    /// A mode is verifiable exactly when it was configured with both an
    /// endpoint list and a proof endpoint; then, and only then, it carries a
    /// proof endpoint.
    pub proof fn lemma_verifiable_iff_both_given(
        execution_rpcs: Option<Vec<String>>,
        execution_verifiable_api: Option<Url>,
        mode: ExecutionMode,
    )
        requires
            Self::configured(execution_rpcs, execution_verifiable_api, mode),
        ensures
            mode.verifiable() <==> (execution_rpcs is Some && execution_verifiable_api is Some),
            mode.verifiable() <==> mode.proof_endpoint() is Some,
    {
    }
}

} // verus!
