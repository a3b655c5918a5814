//! The TLS Context Builder: constructs a client TLS context for mutual
//! authentication from three pieces of certificate material, under an
//! explicit strictness policy, and wraps it in a connector with an explicit
//! hostname-verification policy.
//!
//! The context itself, the certificate parsing and the handshake are the
//! TLS library's work; this module decides, with an exact contract, what
//! happens on each material-load outcome and which policies the connector
//! carries.

use vstd::prelude::*;
use vstd::string::StringSliceAdditionalSpecFns;
use crate::errors::TlsMaterial;
use openssl::error::ErrorStack;
use openssl::ssl::SslConnector;
use openssl::ssl::SslConnectorBuilder;
use openssl::ssl::SslFiletype;
use openssl::ssl::SslMethod;
use postgres_openssl::MakeTlsConnector;

verus! {

#[verifier::external_type_specification]
#[verifier::external_body]
pub struct ExErrorStack(ErrorStack);

#[verifier::external_type_specification]
#[verifier::external_body]
pub struct ExSslConnectorBuilder(SslConnectorBuilder);

#[verifier::external_type_specification]
#[verifier::external_body]
pub struct ExSslConnector(SslConnector);

#[verifier::external_type_specification]
#[verifier::external_body]
pub struct ExMakeTlsConnector(MakeTlsConnector);

/// The two explicit policy decisions of the TLS layer.
#[derive(Debug, Clone, Copy, PartialEq, Eq, Structural)]
pub struct TlsPolicy {
    /// Whether the TLS layer checks that the server certificate's subject
    /// matches the connection's target host. Disabled by default: the chain
    /// must still be signed by the configured CA, but a validly signed
    /// certificate for another host is accepted. This protects against
    /// untrusted CAs, not against a misdirected endpoint — override it
    /// deliberately.
    pub verify_hostname: bool,
    /// Whether a failure to load one piece of certificate material aborts
    /// the build. Disabled by default: the failure is reported and the
    /// partially configured context is used anyway, surfacing the real
    /// problem only at handshake time.
    pub strict_material: bool,
}

impl Default for TlsPolicy {
    /// The default policy: hostname verification off, best-effort material
    /// loading.
    fn default() -> (r: Self)
        ensures
            !r.verify_hostname,
            !r.strict_material,
    {
        TlsPolicy { verify_hostname: false, strict_material: false }
    }
}

/// Which of the three pieces of certificate material were loaded into the
/// context under construction.
#[derive(Debug, Clone, Copy, PartialEq, Eq, Structural)]
pub struct MaterialReport {
    pub cert_loaded: bool,
    pub key_loaded: bool,
    pub ca_loaded: bool,
}

impl MaterialReport {
    /// The report before any material has been offered to the builder.
    pub fn new() -> (r: Self)
        ensures
            r == (MaterialReport { cert_loaded: false, key_loaded: false, ca_loaded: false }),
    {
        MaterialReport { cert_loaded: false, key_loaded: false, ca_loaded: false }
    }

    /// True when every piece of material was loaded.
    pub open spec fn all_loaded(self) -> bool {
        self.cert_loaded && self.key_loaded && self.ca_loaded
    }
}

/// The report with the flag of one material set to the given value.
pub open spec fn material_set(rep: MaterialReport, m: TlsMaterial, v: bool) -> MaterialReport {
    match m {
        TlsMaterial::CertificateChain => MaterialReport { cert_loaded: v, ..rep },
        TlsMaterial::PrivateKey => MaterialReport { key_loaded: v, ..rep },
        TlsMaterial::CaBundle => MaterialReport { ca_loaded: v, ..rep },
    }
}

/// One tolerated material-load failure: which material, and the TLS
/// library's account of the cause.
pub struct TlsWarning {
    pub material: TlsMaterial,
    pub cause: ErrorStack,
}

/// The materials of a sequence of warnings, in order.
pub open spec fn warning_materials(ws: Seq<TlsWarning>) -> Seq<TlsMaterial> {
    ws.map_values(|w: TlsWarning| w.material)
}

/// The materials a report records as failed, in build order: certificate
/// chain, then private key, then CA bundle.
pub open spec fn failed_materials(rep: MaterialReport) -> Seq<TlsMaterial> {
    (if rep.cert_loaded {
        Seq::<TlsMaterial>::empty()
    } else {
        seq![TlsMaterial::CertificateChain]
    }) + (if rep.key_loaded {
        Seq::<TlsMaterial>::empty()
    } else {
        seq![TlsMaterial::PrivateKey]
    }) + (if rep.ca_loaded {
        Seq::<TlsMaterial>::empty()
    } else {
        seq![TlsMaterial::CaBundle]
    })
}

/// How a TLS context build fails.
#[derive(Debug)]
pub enum TlsBuildError {
    /// A TLS context builder could not even be created. Always fatal.
    BuilderInit(ErrorStack),
    /// One piece of certificate material could not be loaded. Raised only
    /// under the strict-material policy.
    MaterialLoad(TlsMaterial, ErrorStack),
}

/// A path is acceptable to the TLS library's C interface when its text
/// holds no interior NUL byte.
pub open spec fn valid_path(s: &str) -> bool {
    !s.spec_bytes().contains(0u8)
}

/// Decides whether a path can be handed to the TLS library: true exactly
/// when the text holds no NUL byte.
pub fn path_is_valid(s: &str) -> (r: bool)
    ensures
        r == valid_path(s),
{
    let bytes = s.as_bytes();
    let mut i: usize = 0;
    while i < bytes.len()
        invariant
            bytes@ == s.spec_bytes(),
            i <= bytes@.len(),
            forall|j: int| 0 <= j < i ==> bytes@[j] != 0u8,
        decreases bytes@.len() - i,
    {
        if bytes[i] == 0u8 {
            return false;
        }
        i = i + 1;
    }
    true
}

/// The built TLS context: the connector holding the TLS library's state,
/// the report of which material went in, and the hostname-verification flag
/// the connector was configured with.
pub struct TlsContext {
    pub connector: MakeTlsConnector,
    pub report: MaterialReport,
    pub verify_hostname: bool,
}

/// A successful build: the context together with the tolerated
/// material-load failures, for the caller to report.
pub struct BuiltTls {
    pub context: TlsContext,
    pub warnings: Vec<TlsWarning>,
}

/// Relies on openssl's SslConnector::builder with SslMethod::tls: creates a
/// client TLS context builder, or reports why none could be created.
#[verifier::external_body]
fn new_tls_builder() -> Result<SslConnectorBuilder, ErrorStack> {
    SslConnector::builder(SslMethod::tls())
}

/// Relies on openssl's SslContextBuilder::set_certificate_chain_file: loads
/// the PEM-encoded client certificate chain from the file at `path`, or
/// reports why it could not be loaded. The path must hold no interior NUL.
#[verifier::external_body]
fn set_certificate_chain(builder: &mut SslConnectorBuilder, path: &str) -> Result<(), ErrorStack>
    requires
        valid_path(path),
{
    builder.set_certificate_chain_file(path)
}

/// Relies on openssl's SslContextBuilder::set_private_key_file: loads the
/// PEM-encoded client private key from the file at `path`, or reports why
/// it could not be loaded. The path must hold no interior NUL.
#[verifier::external_body]
fn set_private_key_pem(builder: &mut SslConnectorBuilder, path: &str) -> Result<(), ErrorStack>
    requires
        valid_path(path),
{
    builder.set_private_key_file(path, SslFiletype::PEM)
}

/// Relies on openssl's SslContextBuilder::set_ca_file: loads the trusted CA
/// certificates for server verification from the PEM file at `path`, or
/// reports why they could not be loaded. The path must hold no interior NUL.
#[verifier::external_body]
fn set_trusted_ca(builder: &mut SslConnectorBuilder, path: &str) -> Result<(), ErrorStack>
    requires
        valid_path(path),
{
    builder.set_ca_file(path)
}

/// Relies on openssl's SslConnectorBuilder::build: finishes the builder
/// into an immutable connector context.
#[verifier::external_body]
fn finish_context(builder: SslConnectorBuilder) -> SslConnector {
    builder.build()
}

/// Relies on postgres_openssl's MakeTlsConnector::new: wraps the TLS
/// context in a connector usable by the protocol client.
#[verifier::external_body]
fn new_connector(context: SslConnector) -> MakeTlsConnector {
    MakeTlsConnector::new(context)
}

/// Relies on postgres_openssl's MakeTlsConnector::set_callback and
/// openssl's ConnectConfiguration::set_verify_hostname: every connection
/// configured through this connector checks the server certificate's
/// hostname exactly when `verify` is true.
#[verifier::external_body]
fn apply_hostname_policy(connector: &mut MakeTlsConnector, verify: bool) {
    connector.set_callback(move |configuration, _domain| {
        configuration.set_verify_hostname(verify);
        Ok(())
    });
}

/// Folds one material-load outcome into the build: a loaded material is
/// recorded; a failed one is recorded and reported as a warning under the
/// best-effort policy, and aborts the build under the strict policy.
pub fn record_material(
    report: &mut MaterialReport,
    warnings: &mut Vec<TlsWarning>,
    material: TlsMaterial,
    outcome: Result<(), ErrorStack>,
    strict: bool,
) -> (r: Result<(), TlsBuildError>)
    ensures
        outcome is Ok ==> {
            &&& r is Ok
            &&& *final(report) == material_set(*old(report), material, true)
            &&& final(warnings)@ == old(warnings)@
        },
        !strict ==> (outcome matches Err(cause) ==> {
            &&& r is Ok
            &&& *final(report) == material_set(*old(report), material, false)
            &&& final(warnings)@ == old(warnings)@.push(TlsWarning { material, cause })
        }),
        strict ==> (outcome matches Err(cause) ==> {
            &&& r == Err::<(), TlsBuildError>(TlsBuildError::MaterialLoad(material, cause))
            &&& *final(report) == *old(report)
            &&& final(warnings)@ == old(warnings)@
        }),
{
    match outcome {
        Ok(()) => {
            set_material_flag(report, material, true);
            Ok(())
        },
        Err(cause) => {
            if strict {
                Err(TlsBuildError::MaterialLoad(material, cause))
            } else {
                set_material_flag(report, material, false);
                warnings.push(TlsWarning { material, cause });
                Ok(())
            }
        },
    }
}

/// Sets the report flag of one material.
fn set_material_flag(report: &mut MaterialReport, material: TlsMaterial, value: bool)
    ensures
        *final(report) == material_set(*old(report), material, value),
{
    match material {
        TlsMaterial::CertificateChain => report.cert_loaded = value,
        TlsMaterial::PrivateKey => report.key_loaded = value,
        TlsMaterial::CaBundle => report.ca_loaded = value,
    }
}

/// The TLS Context Builder. Offers the three pieces of certificate material
/// to a fresh context builder in a fixed order — certificate chain, private
/// key, CA bundle — and finishes the context into a connector carrying the
/// policy's hostname-verification flag.
///
/// This function never panics, whatever the three paths name. Under the
/// best-effort policy (the default) a material-load failure never fails the
/// build: the only possible error is that no context builder could be
/// created at all. Under the strict policy the first material-load failure
/// aborts the build, so a returned context has every material loaded.
/// In every case the warnings list the failed materials, in build order,
/// each with the TLS library's account of the cause.
pub fn build_tls_context(cert_path: &str, key_path: &str, ca_path: &str, policy: &TlsPolicy) -> (r:
    Result<BuiltTls, TlsBuildError>)
    requires
        valid_path(cert_path),
        valid_path(key_path),
        valid_path(ca_path),
    ensures
        !policy.strict_material ==> (r matches Err(e) ==> e is BuilderInit),
        r matches Ok(built) ==> {
            &&& built.context.verify_hostname == policy.verify_hostname
            &&& warning_materials(built.warnings@) == failed_materials(built.context.report)
            &&& policy.strict_material ==> built.context.report.all_loaded()
            &&& policy.strict_material ==> built.warnings@ == Seq::<TlsWarning>::empty()
        },
{
    let mut builder = match new_tls_builder() {
        Ok(b) => b,
        Err(e) => {
            return Err(TlsBuildError::BuilderInit(e));
        },
    };
    let mut report = MaterialReport::new();
    let mut warnings: Vec<TlsWarning> = Vec::new();

    let cert_outcome = set_certificate_chain(&mut builder, cert_path);
    match record_material(
        &mut report,
        &mut warnings,
        TlsMaterial::CertificateChain,
        cert_outcome,
        policy.strict_material,
    ) {
        Ok(()) => (),
        Err(e) => {
            return Err(e);
        },
    }

    let key_outcome = set_private_key_pem(&mut builder, key_path);
    match record_material(
        &mut report,
        &mut warnings,
        TlsMaterial::PrivateKey,
        key_outcome,
        policy.strict_material,
    ) {
        Ok(()) => (),
        Err(e) => {
            return Err(e);
        },
    }

    let ca_outcome = set_trusted_ca(&mut builder, ca_path);
    match record_material(
        &mut report,
        &mut warnings,
        TlsMaterial::CaBundle,
        ca_outcome,
        policy.strict_material,
    ) {
        Ok(()) => (),
        Err(e) => {
            return Err(e);
        },
    }

    let mut connector = new_connector(finish_context(builder));
    apply_hostname_policy(&mut connector, policy.verify_hostname);

    proof {
        assert(warning_materials(warnings@) =~= failed_materials(report));
    }
    Ok(
        BuiltTls {
            context: TlsContext { connector, report, verify_hostname: policy.verify_hostname },
            warnings,
        },
    )
}

} // verus!
