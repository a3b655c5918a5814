use secure_db_bootstrap::errors::TlsMaterial;
use secure_db_bootstrap::tls::MaterialReport;
use secure_db_bootstrap::tls::TlsBuildError;
use secure_db_bootstrap::tls::TlsPolicy;
use secure_db_bootstrap::tls::TlsWarning;
use secure_db_bootstrap::tls::build_tls_context;
use secure_db_bootstrap::tls::record_material;

use openssl::error::ErrorStack;

fn some_error_stack() -> ErrorStack {
    ErrorStack::get()
}

#[test]
fn tls_policy_default_disables_hostname_verification() {
    let policy = TlsPolicy::default();
    assert!(!policy.verify_hostname);
    assert!(!policy.strict_material);
}

#[test]
fn record_material_success_sets_flag_and_keeps_quiet() {
    let mut report = MaterialReport::new();
    let mut warnings: Vec<TlsWarning> = Vec::new();
    let r = record_material(
        &mut report,
        &mut warnings,
        TlsMaterial::PrivateKey,
        Ok(()),
        false,
    );
    assert!(r.is_ok());
    assert!(report.key_loaded);
    assert!(!report.cert_loaded);
    assert!(!report.ca_loaded);
    assert!(warnings.is_empty());
}

#[test]
fn record_material_best_effort_failure_warns_and_goes_on() {
    let mut report = MaterialReport::new();
    let mut warnings: Vec<TlsWarning> = Vec::new();
    let r = record_material(
        &mut report,
        &mut warnings,
        TlsMaterial::CaBundle,
        Err(some_error_stack()),
        false,
    );
    assert!(r.is_ok());
    assert!(!report.ca_loaded);
    assert_eq!(warnings.len(), 1);
    assert_eq!(warnings[0].material, TlsMaterial::CaBundle);
}

#[test]
fn record_material_strict_failure_aborts() {
    let mut report = MaterialReport::new();
    let mut warnings: Vec<TlsWarning> = Vec::new();
    let r = record_material(
        &mut report,
        &mut warnings,
        TlsMaterial::CertificateChain,
        Err(some_error_stack()),
        true,
    );
    match r {
        Err(TlsBuildError::MaterialLoad(material, _cause)) => {
            assert_eq!(material, TlsMaterial::CertificateChain);
        }
        _ => panic!("strict material failure must abort the build"),
    }
    assert!(warnings.is_empty());
    assert!(!report.cert_loaded);
    assert!(!report.key_loaded);
    assert!(!report.ca_loaded);
}

#[test]
fn build_with_no_material_still_yields_a_context() {
    let policy = TlsPolicy::default();
    let built = build_tls_context("", "", "", &policy).unwrap();
    assert!(!built.context.verify_hostname);
    assert!(!built.context.report.cert_loaded);
    assert!(!built.context.report.key_loaded);
    assert!(!built.context.report.ca_loaded);
    assert_eq!(built.warnings.len(), 3);
    assert_eq!(built.warnings[0].material, TlsMaterial::CertificateChain);
    assert_eq!(built.warnings[1].material, TlsMaterial::PrivateKey);
    assert_eq!(built.warnings[2].material, TlsMaterial::CaBundle);
}

#[test]
fn build_with_nonexistent_paths_does_not_abort() {
    let policy = TlsPolicy::default();
    let built = build_tls_context(
        "no-such-client.crt",
        "no-such-client.key",
        "no-such-ca.pem",
        &policy,
    )
    .unwrap();
    assert_eq!(built.warnings.len(), 3);
}

#[test]
fn build_strict_aborts_on_first_missing_material() {
    let policy = TlsPolicy {
        verify_hostname: false,
        strict_material: true,
    };
    let result = build_tls_context("", "", "", &policy);
    match result {
        Err(TlsBuildError::MaterialLoad(material, _cause)) => {
            assert_eq!(material, TlsMaterial::CertificateChain);
        }
        _ => panic!("strict build with unloadable material must fail"),
    }
}

#[test]
fn build_honours_hostname_policy_flag() {
    let policy = TlsPolicy {
        verify_hostname: true,
        strict_material: false,
    };
    let built = build_tls_context("", "", "", &policy).unwrap();
    assert!(built.context.verify_hostname);
}
