//! The context of a request: who calls, and which warehouse the call is about.

use crate::error::{DeltaBackendError, ErrorKind, ErrorModel, Failure};
use crate::host::WarehouseId;
use crate::properties;
use crate::properties::TableProperties;
use vstd::prelude::*;

verus! {

/// The context of a request: the caller's metadata `M`, and the warehouse that
/// the `{prefix}` of the path names.
#[derive(Clone, Debug, PartialEq, Eq)]
pub struct DeltaRequestContext<M> {
    pub metadata: M,
    pub warehouse_id: WarehouseId,
}

/// A request that is answered with an error.
#[derive(Debug, PartialEq, Eq)]
pub enum DeltaApiError {
    /// The error that a failure of the backend is answered with.
    Backend(DeltaBackendError),
    /// The error that a malformed request is answered with.
    InvalidArgument(String),
}

/// What a [`DeltaApiError`] says.
pub enum ApiFailure {
    Backend(Failure),
    InvalidArgument(Seq<char>),
}

impl View for DeltaApiError {
    type V = ApiFailure;

    open spec fn view(&self) -> ApiFailure {
        match *self {
            DeltaApiError::Backend(error) => ApiFailure::Backend(error@),
            DeltaApiError::InvalidArgument(message) => ApiFailure::InvalidArgument(message@),
        }
    }
}

/// A result with its error taken by what it says.
pub open spec fn answered<T>(result: Result<T, DeltaApiError>) -> Result<T, ApiFailure> {
    match result {
        Ok(value) => Ok(value),
        Err(error) => Err(error@),
    }
}

/// The context of a call whose prefix was resolved so. A prefix that names no
/// warehouse makes the request malformed, whatever code the host reports.
pub open spec fn context_of<M>(metadata: M, warehouse: Result<WarehouseId, ErrorModel>) -> Result<
    DeltaRequestContext<M>,
    ApiFailure,
> {
    match warehouse {
        Ok(warehouse_id) => Ok(DeltaRequestContext { metadata, warehouse_id }),
        Err(error) => Err(ApiFailure::InvalidArgument(error.message@)),
    }
}

/// The context of a call whose prefix was resolved so.
fn make_context<M>(metadata: M, warehouse: Result<WarehouseId, ErrorModel>) -> (context: Result<
    DeltaRequestContext<M>,
    DeltaApiError,
>)
    ensures
        answered(context) == context_of(metadata, warehouse),
        warehouse matches Ok(warehouse_id) ==> (context matches Ok(cx) && cx.metadata == metadata
            && cx.warehouse_id == warehouse_id),
        warehouse matches Err(error) ==> (context matches Err(DeltaApiError::InvalidArgument(m))
            && m@ == error.message@),
{
    match warehouse {
        Ok(warehouse_id) => Ok(DeltaRequestContext { metadata, warehouse_id }),
        Err(error) => Err(DeltaApiError::InvalidArgument(error.message)),
    }
}

/// A call that waits for its prefix to be resolved to a warehouse. `A` is what the
/// call is made with.
#[derive(Debug)]
pub struct Prepare<M, A> {
    pub prefix: String,
    pub metadata: M,
    pub call: A,
}

/// What a call becomes once its prefix was resolved.
pub open spec fn prepared<M, A>(
    state: Prepare<M, A>,
    warehouse: Result<WarehouseId, ErrorModel>,
) -> Result<(A, DeltaRequestContext<M>), ApiFailure> {
    match context_of(state.metadata, warehouse) {
        Ok(context) => Ok((state.call, context)),
        Err(failure) => Err(failure),
    }
}

/// Begins a call: the warehouse comes from the prefix of the path.
pub fn prepare<M, A>(prefix: String, metadata: M, call: A) -> (state: Prepare<M, A>)
    ensures
        state == (Prepare { prefix, metadata, call }),
{
    Prepare { prefix, metadata, call }
}

impl<M, A> Prepare<M, A> {
    /// Takes the warehouse that the prefix names.
    pub fn resolved(self, warehouse: Result<WarehouseId, ErrorModel>) -> (ready: Result<
        (A, DeltaRequestContext<M>),
        DeltaApiError,
    >)
        ensures
            answered(ready) == prepared(self, warehouse),
            warehouse matches Ok(warehouse_id) ==> (ready matches Ok((call, cx)) && call
                == self.call && cx.metadata == self.metadata && cx.warehouse_id == warehouse_id),
            warehouse matches Err(error) ==> (ready matches Err(DeltaApiError::InvalidArgument(m))
                && m@ == error.message@),
    {
        match make_context(self.metadata, warehouse) {
            Ok(context) => Ok((self.call, context)),
            Err(error) => Err(error),
        }
    }
}

/// Asks for the parameters that were captured from the path.
#[derive(Debug)]
pub struct ReadPath<M> {
    pub metadata: M,
}

/// Asks for the warehouse that the prefix names. A path without a prefix names
/// none.
#[derive(Debug)]
pub struct ResolvePrefix<M> {
    pub metadata: M,
    pub prefix: Option<String>,
}

/// What a request is answered with that no middleware has put metadata on.
pub open spec fn metadata_missing() -> ApiFailure {
    ApiFailure::Backend(
        Failure {
            kind: ErrorKind::Internal,
            message:
                "request metadata extension missing; Delta routes must be nested inside the request-metadata middleware"@,
        },
    )
}

/// Begins to extract the context of a request. Metadata that is missing is a fault
/// of the server's set-up, not of the caller.
pub fn from_request_parts<M>(metadata: Option<M>) -> (next: Result<ReadPath<M>, DeltaApiError>)
    ensures
        answered(next) == match metadata {
            Some(metadata) => Ok(ReadPath { metadata }),
            None => Err(metadata_missing()),
        },
        metadata matches Some(metadata) ==> (next matches Ok(state) && state.metadata == metadata),
        metadata is None ==> (next matches Err(
            DeltaApiError::Backend(DeltaBackendError::Internal(_)),
        )),
{
    match metadata {
        Some(metadata) => Ok(ReadPath { metadata }),
        None => Err(
            DeltaApiError::Backend(
                DeltaBackendError::Internal(
                    "request metadata extension missing; Delta routes must be nested inside the request-metadata middleware".to_owned(),
                ),
            ),
        ),
    }
}

impl<M> ReadPath<M> {
    /// Takes the captured parameters, or the rejection `R` of the path.
    pub fn path_read<R>(self, params: Result<TableProperties, R>) -> (next: Result<
        ResolvePrefix<M>,
        R,
    >)
        ensures
            match params {
                Ok(params) => {
                    &&& next matches Ok(state)
                    &&& state.metadata == self.metadata
                    &&& properties::lookup(params@, "prefix"@) == match state.prefix {
                        Some(prefix) => Some(prefix@),
                        None => None,
                    }
                },
                Err(rejection) => next == Err::<ResolvePrefix<M>, R>(rejection),
            },
    {
        match params {
            Ok(params) => {
                let prefix = match params.get("prefix") {
                    Some(prefix) => Some(prefix.clone()),
                    None => None,
                };
                Ok(ResolvePrefix { metadata: self.metadata, prefix })
            },
            Err(rejection) => Err(rejection),
        }
    }
}

impl<M> ResolvePrefix<M> {
    /// Takes the warehouse that the prefix names.
    pub fn resolved(self, warehouse: Result<WarehouseId, ErrorModel>) -> (context: Result<
        DeltaRequestContext<M>,
        DeltaApiError,
    >)
        ensures
            answered(context) == context_of(self.metadata, warehouse),
            warehouse matches Ok(warehouse_id) ==> (context matches Ok(cx) && cx.metadata
                == self.metadata && cx.warehouse_id == warehouse_id),
            warehouse matches Err(error) ==> (context matches Err(
                DeltaApiError::InvalidArgument(m),
            ) && m@ == error.message@),
    {
        make_context(self.metadata, warehouse)
    }
}

/// Both ways to a context agree: with the same metadata and the same answer for
/// the prefix, an extracted context is the one that a call is prepared with, and
/// a refusal is the same refusal.
pub proof fn contexts_agree<M, A>(
    extracted: ResolvePrefix<M>,
    call: Prepare<M, A>,
    warehouse: Result<WarehouseId, ErrorModel>,
)
    requires
        extracted.metadata == call.metadata,
    ensures
        match prepared(call, warehouse) {
            Ok(ready) => context_of(extracted.metadata, warehouse) == Ok::<
                DeltaRequestContext<M>,
                ApiFailure,
            >(ready.1),
            Err(failure) => context_of(extracted.metadata, warehouse) == Err::<
                DeltaRequestContext<M>,
                ApiFailure,
            >(failure),
        },
{
}

/// Wherever the prefix resolves to a warehouse, there is a context: it holds the
/// caller's metadata and that warehouse, whichever they are. Only a prefix that did
/// not resolve is refused, as a malformed request that is told the host's message,
/// whatever code the host reports.
pub proof fn every_resolved_prefix_has_a_context<M>(
    metadata: M,
    warehouse: Result<WarehouseId, ErrorModel>,
)
    ensures
        context_of(metadata, warehouse) is Ok <==> warehouse is Ok,
        context_of(metadata, warehouse) matches Ok(cx) ==> cx.metadata == metadata
            && cx.warehouse_id == warehouse->Ok_0,
        context_of(metadata, warehouse) matches Err(failure) ==> (
        failure matches ApiFailure::InvalidArgument(message) && message
            == warehouse->Err_0.message@),
{
}

/// Wherever its prefix resolves to a warehouse, a call is made: with what it was
/// begun with, for the caller that it was begun by, on that warehouse. The prefix
/// itself counts for nothing else.
pub proof fn every_call_with_a_resolved_prefix_is_made<M, A>(
    state: Prepare<M, A>,
    warehouse: Result<WarehouseId, ErrorModel>,
)
    ensures
        prepared(state, warehouse) is Ok <==> warehouse is Ok,
        prepared(state, warehouse) matches Ok(ready) ==> {
            &&& ready.0 == state.call
            &&& ready.1.metadata == state.metadata
            &&& ready.1.warehouse_id == warehouse->Ok_0
        },
        prepared(state, warehouse) matches Err(failure) ==> (
        failure matches ApiFailure::InvalidArgument(message) && message
            == warehouse->Err_0.message@),
{
}

/// Two requests have the same context only where they come from the same caller
/// and are about the same warehouse.
pub proof fn contexts_tell_callers_and_warehouses_apart<M>(
    a: M,
    here: WarehouseId,
    b: M,
    there: WarehouseId,
)
    ensures
        context_of(a, Ok::<WarehouseId, ErrorModel>(here)) == context_of(
            b,
            Ok::<WarehouseId, ErrorModel>(there),
        ) <==> a == b && here == there,
{
    let one = context_of(a, Ok::<WarehouseId, ErrorModel>(here))->Ok_0;
    let other = context_of(b, Ok::<WarehouseId, ErrorModel>(there))->Ok_0;
    assert(one.metadata == a && one.warehouse_id == here);
    assert(other.metadata == b && other.warehouse_id == there);
}

/// A result is answered as the success or the error that it is. A malformed
/// request and a failure of the backend are told apart, each with its own text.
pub proof fn results_are_answered_as_they_are<T>(result: Result<T, DeltaApiError>)
    ensures
        answered(result) is Ok <==> result is Ok,
        result matches Ok(value) ==> answered(result)->Ok_0 == value,
        result matches Err(DeltaApiError::Backend(error)) ==> answered(result) == Err::<
            T,
            ApiFailure,
        >(ApiFailure::Backend(error@)),
        result matches Err(DeltaApiError::InvalidArgument(message)) ==> answered(result) == Err::<
            T,
            ApiFailure,
        >(ApiFailure::InvalidArgument(message@)),
{
}

/// Missing metadata is told as a fault of the server, never as one of the caller.
pub proof fn missing_metadata_is_a_fault_of_the_server()
    ensures
        metadata_missing() matches ApiFailure::Backend(failure) && failure.kind is Internal
            && failure.message
            == "request metadata extension missing; Delta routes must be nested inside the request-metadata middleware"@,
{
}

} // verus!
