//! Checking an upstream response and taking the profile out of it.

use vstd::prelude::*;
use crate::identifier::IdKind;
use crate::model::{ApiResponse, ApiResponseData, Player};

verus! {

/// Why an upstream response holds no profile for the request.
#[derive(Clone, Copy, Debug, PartialEq, Eq, Structural)]
pub enum ValidationError {
    /// The response has no payload at all.
    NoData,
    /// The payload does not hold the player that was asked for.
    NotFound,
}

/// The field of the payload that a query of kind `kind` fills.
pub open spec fn requested_player(data: ApiResponseData, kind: IdKind) -> Option<Player> {
    match kind {
        IdKind::Uuid => data.player,
        IdKind::Username => data.player_by_username,
    }
}

/// What `extract` returns. A payload in which only the field of the other
/// kind is filled counts as not found.
pub open spec fn extracted(envelope: ApiResponse, kind: IdKind) -> Result<
    Player,
    ValidationError,
> {
    match envelope.data {
        None => Err(ValidationError::NoData),
        Some(data) => if data.player is None && data.player_by_username is None {
            Err(ValidationError::NotFound)
        } else {
            match requested_player(data, kind) {
                None => Err(ValidationError::NotFound),
                Some(player) => Ok(player),
            }
        },
    }
}

/// Takes the requested profile out of `envelope`, whole or not at all.
pub fn extract(envelope: ApiResponse, kind: IdKind) -> (result: Result<Player, ValidationError>)
    ensures
        result == extracted(envelope, kind),
{
    let data = match envelope.data {
        None => {
            return Err(ValidationError::NoData);
        },
        Some(data) => data,
    };
    if data.player.is_none() && data.player_by_username.is_none() {
        return Err(ValidationError::NotFound);
    }
    let requested = match kind {
        IdKind::Uuid => data.player,
        IdKind::Username => data.player_by_username,
    };
    match requested {
        None => Err(ValidationError::NotFound),
        Some(player) => Ok(player),
    }
}

/// Extraction gives a profile exactly when the payload is there and holds
/// the player of the requested kind; the profile is then that player.
pub proof fn extraction_succeeds_iff_requested_player_is_there(envelope: ApiResponse, kind: IdKind)
    ensures
        extracted(envelope, kind) is Ok <==> envelope.data is Some && requested_player(
            envelope.data->Some_0,
            kind,
        ) is Some,
        extracted(envelope, kind) matches Ok(player) ==> Some(player) == requested_player(
            envelope.data->Some_0,
            kind,
        ),
{
}

/// A payload that holds neither player is not found, whatever kind was
/// asked for and whatever its diagnostic fields say.
pub proof fn payload_without_players_is_not_found(data: ApiResponseData, kind: IdKind)
    requires
        data.player is None,
        data.player_by_username is None,
    ensures
        extracted((ApiResponse { data: Some(data) }), kind) == Err::<Player, ValidationError>(
            ValidationError::NotFound,
        ),
{
}

/// A response without payload is no data, whatever kind was asked for.
pub proof fn missing_payload_is_no_data(kind: IdKind)
    ensures
        extracted((ApiResponse { data: None }), kind) == Err::<Player, ValidationError>(
            ValidationError::NoData,
        ),
{
}

} // verus!
