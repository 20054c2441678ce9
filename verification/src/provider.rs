//! The choice of the Parsec provider that serves the driver's requests.
//!
//! The driver is bound to the TPM provider: at initialisation it lists the
//! providers that the Parsec service runs, takes the one that carries the TPM
//! provider's UUID, and makes it the client's implicit provider.
use vstd::prelude::*;

use crate::status::{ClientError, PSA_ERROR_GENERIC_ERROR};

verus! {

/// The UUID under which Parsec registers its TPM provider.
pub const TPM_PROVIDER_UUID: &'static str = "1e4954a4-ff21-46d3-ab0c-661eeb667e1d";

/// What the driver reads of a provider that the Parsec service lists: its
/// UUID, as the 128-bit number whose big-endian bytes are the UUID's bytes,
/// and the identifier of the provider on the wire.
#[derive(Clone, Copy, Debug, PartialEq, Eq, Structural)]
pub struct ProviderEntry {
    pub uuid: u128,
    pub id: u8,
}

/// What the driver does once the providers are listed.
#[derive(Clone, Copy, Debug, PartialEq, Eq, Structural)]
pub enum InitOutcome {
    /// Make the provider with this identifier the implicit provider of the
    /// client, then report success.
    UseProvider(u8),
    /// Report this PSA status and leave the client as it is.
    Fail(i32),
}

/// The UUID that `uuid::Uuid::parse_str` reads from a text, as the 128-bit
/// number of its bytes, or `None` where the text is not a UUID.
pub uninterp spec fn uuid_from_str(text: Seq<char>) -> Option<u128>;

/// Calls `uuid::Uuid::parse_str` on the text and, where it returns a UUID,
/// hands it back through `Uuid::as_u128`. The contract claims only that the
/// result is a function of the text, named `uuid_from_str`.
#[verifier::external_body]
fn parse_uuid(text: &str) -> (uuid: Option<u128>)
    ensures
        uuid == uuid_from_str(text@),
{
    match uuid::Uuid::parse_str(text) {
        Ok(parsed) => Some(parsed.as_u128()),
        Err(_) => None,
    }
}

/// The UUID of the TPM provider, read from its text form.
pub fn tpm_provider_uuid() -> (uuid: Option<u128>)
    ensures
        uuid == uuid_from_str(TPM_PROVIDER_UUID@),
{
    parse_uuid(TPM_PROVIDER_UUID)
}

/// The provider at index `i` carries the UUID, and no provider listed after
/// it does.
pub open spec fn last_with_uuid(providers: Seq<ProviderEntry>, uuid: u128, i: int) -> bool {
    &&& 0 <= i < providers.len()
    &&& providers[i].uuid == uuid
    &&& forall|j: int| i < j < providers.len() ==> #[trigger] providers[j].uuid != uuid
}

/// No listed provider carries the UUID.
pub open spec fn none_with_uuid(providers: Seq<ProviderEntry>, uuid: u128) -> bool {
    forall|i: int| 0 <= i < providers.len() ==> #[trigger] providers[i].uuid != uuid
}

/// The identifier of the last listed provider that carries the UUID, if any
/// does.
pub open spec fn selected_provider(providers: Seq<ProviderEntry>, uuid: u128) -> Option<u8>
    decreases providers.len(),
{
    if providers.len() == 0 {
        None
    } else if providers.last().uuid == uuid {
        Some(providers.last().id)
    } else {
        selected_provider(providers.drop_last(), uuid)
    }
}

/// The decision that initialisation takes on what the Parsec service
/// answered to the request for its providers.
pub open spec fn init_outcome(listed: Result<Seq<ProviderEntry>, ClientError>, uuid: u128) -> InitOutcome {
    match listed {
        Err(_) => InitOutcome::Fail(PSA_ERROR_GENERIC_ERROR),
        Ok(providers) => match selected_provider(providers, uuid) {
            Some(id) => InitOutcome::UseProvider(id),
            None => InitOutcome::Fail(PSA_ERROR_GENERIC_ERROR),
        },
    }
}

/// Finds the identifier of the last provider in the list that carries the
/// UUID.
pub fn select_provider(providers: &Vec<ProviderEntry>, uuid: u128) -> (id: Option<u8>)
    ensures
        id == selected_provider(providers@, uuid),
        match id {
            Some(id) => exists|i: int|
                #[trigger] last_with_uuid(providers@, uuid, i) && providers@[i].id == id,
            None => none_with_uuid(providers@, uuid),
        },
{
    proof {
        lemma_selected_is_last_match(providers@, uuid);
    }
    let mut i = providers.len();
    assert(providers@.subrange(0, i as int) =~= providers@);
    while i > 0
        invariant
            i <= providers.len(),
            selected_provider(providers@, uuid) == selected_provider(
                providers@.subrange(0, i as int),
                uuid,
            ),
        decreases i,
    {
        let ghost prefix = providers@.subrange(0, i as int);
        assert(prefix.drop_last() =~= providers@.subrange(0, i - 1));
        i -= 1;
        if providers[i].uuid == uuid {
            proof {
                lemma_selected_is_last_match(providers@, uuid);
            }
            return Some(providers[i].id);
        }
    }
    assert(providers@.subrange(0, 0) =~= Seq::<ProviderEntry>::empty());
    None
}

/// Decides how initialisation ends, given the providers that the Parsec
/// service listed (or the error it answered with) and the TPM provider's
/// UUID: a failed listing and a missing TPM provider are both reported as the
/// generic error.
pub fn init_decision(listed: Result<Vec<ProviderEntry>, ClientError>, tpm_uuid: u128) -> (outcome:
    InitOutcome)
    ensures
        outcome == init_outcome(
            match listed {
                Ok(v) => Ok(v@),
                Err(e) => Err(e),
            },
            tpm_uuid,
        ),
        match outcome {
            InitOutcome::UseProvider(id) => listed matches Ok(v) && exists|i: int|
                #[trigger] last_with_uuid(v@, tpm_uuid, i) && v@[i].id == id,
            InitOutcome::Fail(status) => status == PSA_ERROR_GENERIC_ERROR && (listed matches Ok(v)
                ==> none_with_uuid(v@, tpm_uuid)),
        },
{
    match listed {
        Err(_) => InitOutcome::Fail(PSA_ERROR_GENERIC_ERROR),
        Ok(providers) => match select_provider(&providers, tpm_uuid) {
            Some(id) => InitOutcome::UseProvider(id),
            None => InitOutcome::Fail(PSA_ERROR_GENERIC_ERROR),
        },
    }
}

/// The provider that the driver settles on is the last listed one with the
/// UUID: it carries the UUID, and no provider listed after it does. Where no
/// provider carries the UUID, none is chosen.
pub proof fn lemma_selected_is_last_match(providers: Seq<ProviderEntry>, uuid: u128)
    ensures
        match selected_provider(providers, uuid) {
            Some(id) => exists|i: int| #[trigger] last_with_uuid(providers, uuid, i) && providers[i].id == id,
            None => none_with_uuid(providers, uuid),
        },
    decreases providers.len(),
{
    if providers.len() > 0 {
        let rest = providers.drop_last();
        lemma_selected_is_last_match(rest, uuid);
        if providers.last().uuid == uuid {
            let i = providers.len() - 1;
            assert(last_with_uuid(providers, uuid, i));
        } else {
            match selected_provider(rest, uuid) {
                Some(id) => {
                    let i = choose|i: int| #[trigger] last_with_uuid(rest, uuid, i) && rest[i].id == id;
                    assert(providers[i] == rest[i]);
                    assert forall|j: int| i < j < providers.len() implies #[trigger] providers[j].uuid
                        != uuid by {
                        if j < rest.len() {
                            assert(providers[j] == rest[j]);
                        }
                    }
                    assert(last_with_uuid(providers, uuid, i));
                },
                None => {
                    assert forall|i: int| 0 <= i < providers.len() implies #[trigger] providers[i].uuid
                        != uuid by {
                        if i < rest.len() {
                            assert(providers[i] == rest[i]);
                        }
                    }
                },
            }
        }
    }
}

/// Initialisation succeeds exactly when the listing succeeded and some listed
/// provider carries the UUID.
pub proof fn lemma_init_succeeds_iff_provider_listed(
    listed: Result<Seq<ProviderEntry>, ClientError>,
    uuid: u128,
)
    ensures
        init_outcome(listed, uuid) is UseProvider <==> (listed matches Ok(providers) && exists|i: int|
            0 <= i < providers.len() && #[trigger] providers[i].uuid == uuid),
{
    if let Ok(providers) = listed {
        lemma_selected_is_last_match(providers, uuid);
        if init_outcome(listed, uuid) is UseProvider {
            let id = selected_provider(providers, uuid)->0;
            let i = choose|i: int| #[trigger] last_with_uuid(providers, uuid, i) && providers[i].id == id;
            assert(providers[i].uuid == uuid);
        }
    }
}

/// Where initialisation settles on a provider, it is a listed provider that
/// carries the UUID, and the last one that does; where it settles on none, it
/// fails with the generic error, and if the listing succeeded, no listed
/// provider carries the UUID.
pub proof fn lemma_init_uses_last_provider_with_uuid(
    listed: Result<Seq<ProviderEntry>, ClientError>,
    uuid: u128,
)
    ensures
        match init_outcome(listed, uuid) {
            InitOutcome::UseProvider(id) => listed matches Ok(providers) && exists|i: int|
                #[trigger] last_with_uuid(providers, uuid, i) && providers[i].id == id,
            InitOutcome::Fail(status) => status == PSA_ERROR_GENERIC_ERROR && (listed matches Ok(
                providers,
            ) ==> none_with_uuid(providers, uuid)),
        },
{
    if let Ok(providers) = listed {
        lemma_selected_is_last_match(providers, uuid);
    }
}

/// A failed initialisation never reports success: every failure carries the
/// generic error.
pub proof fn lemma_init_failure_is_generic(
    listed: Result<Seq<ProviderEntry>, ClientError>,
    uuid: u128,
)
    ensures
        init_outcome(listed, uuid) matches InitOutcome::Fail(status) ==> status
            == PSA_ERROR_GENERIC_ERROR && status != crate::status::PSA_SUCCESS,
{
}

} // verus!
