use vstd::prelude::*;

verus! {

/// Why an operation on the ledger was refused. An operation that returns one of
/// these has changed no record and, unless the error is `LedgerFailure`, has
/// asked nothing of the token ledger.
#[derive(Clone, Copy, Debug, PartialEq, Eq, Structural, Hash)]
pub enum ErrorCode {
    /// The user name takes more than 32 bytes.
    UsernameTooLong,
    /// The container id takes more than 32 bytes.
    ContainerIdTooLong,
    /// The location takes more than 64 bytes.
    LocationTooLong,
    /// The deposit weighs less than the configured minimum.
    WeightTooLow,
    /// The deposit would take the container over its capacity.
    ContainerFull,
    /// The container is out of service.
    ContainerInactive,
    /// The container holds nothing to collect.
    ContainerEmpty,
    /// The product id takes more than 32 bytes.
    ProductIdTooLong,
    /// The user's token balance is below the amount to redeem.
    InsufficientTokens,
    /// The caller is not the authority named in the global configuration.
    Unauthorized,
    /// The record to create is already there.
    RecordAlreadyExists,
    /// A counter, or the product of a weight and the reward rate, would pass
    /// `u64::MAX`.
    ArithmeticOverflow,
    /// The token ledger refused to mint or to burn.
    LedgerFailure,
}

impl ErrorCode {
    /// The words in which the error is told to the user.
    pub open spec fn message_text(self) -> Seq<char> {
        match self {
            ErrorCode::UsernameTooLong => "El nombre de usuario es demasiado largo (máximo 32 caracteres)"@,
            ErrorCode::ContainerIdTooLong => "El ID del contenedor es demasiado largo (máximo 32 caracteres)"@,
            ErrorCode::LocationTooLong => "La ubicación es demasiado larga (máximo 64 caracteres)"@,
            ErrorCode::WeightTooLow => "El peso del depósito es menor al mínimo requerido"@,
            ErrorCode::ContainerFull => "El contenedor está lleno - no puede recibir más depósitos"@,
            ErrorCode::ContainerInactive => "El contenedor está inactivo - no puede recibir depósitos"@,
            ErrorCode::ContainerEmpty => "El contenedor está vacío - no hay nada que recolectar"@,
            ErrorCode::ProductIdTooLong => "El ID del producto es demasiado largo (máximo 32 caracteres)"@,
            ErrorCode::InsufficientTokens => "No tienes suficientes tokens ECOC para este canje"@,
            ErrorCode::Unauthorized => "Solo la autoridad del programa puede realizar esta operación"@,
            ErrorCode::RecordAlreadyExists => "El registro ya existe - no se puede crear de nuevo"@,
            ErrorCode::ArithmeticOverflow => "Desbordamiento aritmético - la operación excede el máximo"@,
            ErrorCode::LedgerFailure => "El libro de tokens ECOC rechazó la operación"@,
        }
    }

    /// The words in which the error is told to the user.
    pub fn message(&self) -> (text: String)
        ensures
            text@ == self.message_text(),
    {
        match self {
            ErrorCode::UsernameTooLong => "El nombre de usuario es demasiado largo (máximo 32 caracteres)".to_owned(),
            ErrorCode::ContainerIdTooLong => "El ID del contenedor es demasiado largo (máximo 32 caracteres)".to_owned(),
            ErrorCode::LocationTooLong => "La ubicación es demasiado larga (máximo 64 caracteres)".to_owned(),
            ErrorCode::WeightTooLow => "El peso del depósito es menor al mínimo requerido".to_owned(),
            ErrorCode::ContainerFull => "El contenedor está lleno - no puede recibir más depósitos".to_owned(),
            ErrorCode::ContainerInactive => "El contenedor está inactivo - no puede recibir depósitos".to_owned(),
            ErrorCode::ContainerEmpty => "El contenedor está vacío - no hay nada que recolectar".to_owned(),
            ErrorCode::ProductIdTooLong => "El ID del producto es demasiado largo (máximo 32 caracteres)".to_owned(),
            ErrorCode::InsufficientTokens => "No tienes suficientes tokens ECOC para este canje".to_owned(),
            ErrorCode::Unauthorized => "Solo la autoridad del programa puede realizar esta operación".to_owned(),
            ErrorCode::RecordAlreadyExists => "El registro ya existe - no se puede crear de nuevo".to_owned(),
            ErrorCode::ArithmeticOverflow => "Desbordamiento aritmético - la operación excede el máximo".to_owned(),
            ErrorCode::LedgerFailure => "El libro de tokens ECOC rechazó la operación".to_owned(),
        }
    }
}

} // verus!
