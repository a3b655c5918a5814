//! The error taxonomy of the bootstrap sequence and its propagation policy:
//! which kinds abort the bootstrap and which are reported and tolerated.

use vstd::prelude::*;

verus! {

/// The kind of certificate material handed to the TLS Context Builder.
#[derive(Debug, Clone, Copy, PartialEq, Eq, Structural)]
pub enum TlsMaterial {
    CertificateChain,
    PrivateKey,
    CaBundle,
}

/// Why the Configuration Loader failed: the store exists but cannot be read
/// or decoded. (An absent store is not a failure: it yields the default.)
#[derive(Debug, Clone, Copy, PartialEq, Eq, Structural)]
pub enum LoadFailure {
    StoreUnreadable,
}

/// Every kind of error the bootstrap sequence can meet.
#[derive(Debug, Clone, Copy, PartialEq, Eq, Structural)]
pub enum ErrorKind {
    /// The configuration store exists but is unreadable or corrupt.
    ConfigLoad,
    /// A TLS context builder could not even be created.
    TlsBuilderInit,
    /// One piece of certificate material could not be loaded.
    TlsMaterialLoad,
    /// The connection could not be established: network failure, TLS
    /// handshake failure and authentication rejection, indistinguishably.
    Connect,
    /// The background connection driver stopped with an error.
    ConnectionDriver,
}

/// The propagation policy: configuration-load, builder-init and connect
/// errors always abort the bootstrap; a certificate-material load error
/// aborts it only under the strict-material policy and is otherwise reported
/// and tolerated; a connection-driver error is observed by the background
/// task alone and never aborts anything.
pub open spec fn spec_is_fatal(kind: ErrorKind, strict_tls_material: bool) -> bool {
    match kind {
        ErrorKind::ConfigLoad => true,
        ErrorKind::TlsBuilderInit => true,
        ErrorKind::TlsMaterialLoad => strict_tls_material,
        ErrorKind::Connect => true,
        ErrorKind::ConnectionDriver => false,
    }
}

/// Decides whether an error of the given kind aborts the bootstrap, under
/// the given certificate-material strictness policy.
pub fn is_fatal(kind: ErrorKind, strict_tls_material: bool) -> (r: bool)
    ensures
        r == spec_is_fatal(kind, strict_tls_material),
{
    match kind {
        ErrorKind::ConfigLoad => true,
        ErrorKind::TlsBuilderInit => true,
        ErrorKind::TlsMaterialLoad => strict_tls_material,
        ErrorKind::Connect => true,
        ErrorKind::ConnectionDriver => false,
    }
}

} // verus!
