//! The failures that a deployment call can end in.
use vstd::prelude::*;
use crate::hivelocity::HivelocityError;
use crate::hyperstack::HyperstackError;
use reqwest::Error as TransportError;

verus! {

/// The error of the HTTP client, which the caller's transport hands back.
#[verifier::external_type_specification]
#[verifier::external_body]
pub struct ExTransportError(TransportError);

/// A transport failure, or a failure that the library classified.
#[derive(Debug)]
pub enum Error {
    XnodeDeployerError(XnodeDeployerError),
    ReqwestError(TransportError),
}

/// A classified failure.
#[derive(Debug)]
pub struct XnodeDeployerError {
    error: Box<XnodeDeployerErrorInner>,
}

/// The kinds of classified failure, with the provider-specific ones nested
/// under their provider.
#[derive(Debug, PartialEq)]
pub enum XnodeDeployerErrorInner {
    Default,
    HivelocityError(HivelocityError),
    HyperstackError(HyperstackError),
    ReadinessTimeout { polls: u64 },
}

impl View for XnodeDeployerError {
    type V = XnodeDeployerErrorInner;

    closed spec fn view(&self) -> XnodeDeployerErrorInner {
        *self.error
    }
}

impl XnodeDeployerError {
    pub fn new(error: XnodeDeployerErrorInner) -> (r: Self)
        ensures
            r@ == error,
    {
        Self { error: Box::new(error) }
    }

    /// The kind of failure.
    pub fn inner(&self) -> (r: &XnodeDeployerErrorInner)
        ensures
            *r == self@,
    {
        &self.error
    }
}

impl XnodeDeployerErrorInner {
    /// The fixed text that introduces this failure in a message; the
    /// offending JSON or the number of re-reads, if any, follows it.
    pub fn headline(&self) -> (r: &'static str)
        ensures
            r@ == match self {
                XnodeDeployerErrorInner::Default => ""@,
                XnodeDeployerErrorInner::HivelocityError(e) => e.headline_spec(),
                XnodeDeployerErrorInner::HyperstackError(e) => e.headline_spec(),
                XnodeDeployerErrorInner::ReadinessTimeout { .. } => "No address assigned after re-reads: "@,
            },
    {
        match self {
            XnodeDeployerErrorInner::Default => "",
            XnodeDeployerErrorInner::HivelocityError(e) => e.headline(),
            XnodeDeployerErrorInner::HyperstackError(e) => e.headline(),
            XnodeDeployerErrorInner::ReadinessTimeout { .. } => "No address assigned after re-reads: ",
        }
    }
}

/// `e` is the classified failure `inner`.
pub open spec fn is_deployer_error(e: Error, inner: XnodeDeployerErrorInner) -> bool {
    match e {
        Error::XnodeDeployerError(d) => d@ == inner,
        _ => false,
    }
}

/// Wraps a classified failure into an `Error`.
pub fn deployer_error(inner: XnodeDeployerErrorInner) -> (r: Error)
    ensures
        is_deployer_error(r, inner),
{
    Error::XnodeDeployerError(XnodeDeployerError::new(inner))
}

} // verus!
