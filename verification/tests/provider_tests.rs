use parsec_interface::requests::ProviderId;
use parsec_se_driver::output::write_output;
use parsec_se_driver::provider::{
    init_decision, select_provider, tpm_provider_uuid, InitOutcome, ProviderEntry,
    TPM_PROVIDER_UUID,
};
use parsec_se_driver::status::{ClientError, PSA_ERROR_GENERIC_ERROR};

const TPM_UUID: u128 = 0x1e4954a4_ff21_46d3_ab0c_661eeb667e1d;
const MBED_UUID: u128 = 0x1c1139dc_ad7c_47dc_ad6b_db6fdb466552;

fn entry(uuid: u128, id: ProviderId) -> ProviderEntry {
    ProviderEntry { uuid, id: id as u8 }
}

#[test]
fn tpm_uuid_is_read_from_its_text() {
    assert_eq!(tpm_provider_uuid(), Some(TPM_UUID));
    let parsed = uuid::Uuid::parse_str(TPM_PROVIDER_UUID).unwrap();
    assert_eq!(tpm_provider_uuid(), Some(parsed.as_u128()));
}

#[test]
fn select_from_no_providers() {
    assert_eq!(select_provider(&vec![], TPM_UUID), None);
}

#[test]
fn select_without_tpm_provider() {
    let providers = vec![
        entry(MBED_UUID, ProviderId::MbedCrypto),
        entry(0, ProviderId::Core),
    ];
    assert_eq!(select_provider(&providers, TPM_UUID), None);
}

#[test]
fn select_the_tpm_provider() {
    let providers = vec![
        entry(MBED_UUID, ProviderId::MbedCrypto),
        entry(TPM_UUID, ProviderId::Tpm),
        entry(0, ProviderId::Core),
    ];
    assert_eq!(select_provider(&providers, TPM_UUID), Some(ProviderId::Tpm as u8));
}

#[test]
fn select_the_last_of_several_matches() {
    let providers = vec![
        ProviderEntry { uuid: TPM_UUID, id: 3 },
        ProviderEntry { uuid: MBED_UUID, id: 1 },
        ProviderEntry { uuid: TPM_UUID, id: 9 },
        ProviderEntry { uuid: 0, id: 0 },
    ];
    assert_eq!(select_provider(&providers, TPM_UUID), Some(9));
}

#[test]
fn init_fails_when_listing_fails() {
    assert_eq!(
        init_decision(Err(ClientError::Client), TPM_UUID),
        InitOutcome::Fail(PSA_ERROR_GENERIC_ERROR)
    );
    assert_eq!(
        init_decision(Err(ClientError::Service(1140)), TPM_UUID),
        InitOutcome::Fail(PSA_ERROR_GENERIC_ERROR)
    );
}

#[test]
fn init_fails_without_tpm_provider() {
    let providers = vec![entry(MBED_UUID, ProviderId::MbedCrypto)];
    assert_eq!(
        init_decision(Ok(providers), TPM_UUID),
        InitOutcome::Fail(PSA_ERROR_GENERIC_ERROR)
    );
}

#[test]
fn init_uses_tpm_provider() {
    let providers = vec![
        entry(MBED_UUID, ProviderId::MbedCrypto),
        entry(TPM_UUID, ProviderId::Tpm),
    ];
    assert_eq!(
        init_decision(Ok(providers), TPM_UUID),
        InitOutcome::UseProvider(ProviderId::Tpm as u8)
    );
}

#[test]
fn output_is_written_to_the_front() {
    let mut buffer = [0xAAu8; 6];
    let written = write_output(&mut buffer, &[1, 2, 3]);
    assert_eq!(written, 3);
    assert_eq!(buffer, [1, 2, 3, 0xAA, 0xAA, 0xAA]);
}

#[test]
fn output_fills_an_exact_buffer() {
    let data = vec![9u8, 8, 7, 6];
    let mut buffer = vec![0u8; data.len()];
    assert_eq!(write_output(&mut buffer, &data), 4);
    assert_eq!(buffer, data);
}

#[test]
fn empty_output_leaves_buffer() {
    let mut buffer = [5u8; 2];
    assert_eq!(write_output(&mut buffer, &[]), 0);
    assert_eq!(buffer, [5, 5]);
}
