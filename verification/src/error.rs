use vstd::prelude::*;

verus! {

/// Why a request was refused. Each variant stands for one rejection that the
/// HTTP layer turns into a response.
#[derive(Debug, Clone, Copy, PartialEq, Eq, Structural)]
pub enum ApiError {
    InvalidKey,
    InvalidSession,
    InvalidQuery,
    InvalidFile,
    InvalidUsername,
    InvalidPublicName,
    InvalidBiography,
    InvalidPassword,
    UserAlreadyExists,
    UserDoesNotExist,
    PostDoesNotExist,
    RoomDoesNotExist,
    InternalServer,
    InsufficientPermissions,
    EmptyContent,
    ContentTooLarge,
    RoomBoundaryViolation,
    UserIsBanned,
    UserIsAlreadyFollowed,
    CooldownActive,
}

} // verus!
