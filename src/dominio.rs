use vstd::prelude::*;
use vstd::string::StringExecFns;
use crate::json::{JsonNumber, JsonValue};

verus! {

/// Declares `uuid::Uuid` so that an event can carry its identifier. Nothing
/// is assumed of it: the value is held and never read.
#[verifier::external_type_specification]
#[verifier::external_body]
pub struct ExUuid(uuid::Uuid);

/// An inbound webhook notification.
#[derive(Debug)]
pub struct WebhookEvent {
    pub id: uuid::Uuid,
    pub event_type: String,
    pub payload: JsonValue,
}

/// An order: its id, its status (an open label such as `PAGADO`) and its
/// amount, kept as the JSON number that was received.
#[derive(Debug, PartialEq)]
pub struct Pedido {
    pub id: u32,
    pub status: String,
    pub amount: JsonNumber,
}

/// The failures of the domain.
#[derive(Debug, PartialEq, Eq)]
pub enum DominioError {
    NotFound,
    InternalError,
    PayloadFormatError(String),
}

/// The human-readable text of an error.
pub open spec fn texto_error(e: DominioError) -> Seq<char> {
    match e {
        DominioError::NotFound => "Recurso no encontrado"@,
        DominioError::InternalError => "Error interno del repositorio"@,
        DominioError::PayloadFormatError(m) => "Error de formato del payload: "@ + m@,
    }
}

impl DominioError {
    /// The error's text, as it is shown to a client.
    pub fn mensaje(&self) -> (r: String)
        ensures
            r@ == texto_error(*self),
    {
        match self {
            DominioError::NotFound => String::from_str("Recurso no encontrado"),
            DominioError::InternalError => String::from_str("Error interno del repositorio"),
            DominioError::PayloadFormatError(m) => {
                String::from_str("Error de formato del payload: ").concat(m.as_str())
            },
        }
    }
}

/// The storage port: a store of orders keyed by id, written by upsert.
pub trait PedidoRepository {
    /// The orders held, by id.
    spec fn pedidos(&self) -> Map<u32, Pedido>;

    /// Whether an upsert on this store always succeeds.
    spec fn infalible(&self) -> bool;

    /// Inserts the order, or overwrites the one with the same id. On failure
    /// nothing changes and the error is `InternalError`; a store that is
    /// `infalible` does not fail.
    fn registrar_o_actualizar(&mut self, pedido: Pedido) -> (r: Result<(), DominioError>)
        ensures
            old(self).infalible() ==> r is Ok,
            r is Ok ==> final(self).pedidos() == old(self).pedidos().insert(pedido.id, pedido),
            r is Err ==> final(self).pedidos() == old(self).pedidos(),
            r is Err ==> r == Err::<(), DominioError>(DominioError::InternalError),
    ;
}

} // verus!
