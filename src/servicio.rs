use vstd::prelude::*;
use crate::dominio::{DominioError, Pedido, PedidoRepository, WebhookEvent};
use crate::json::JsonValue;
use crate::payload::{diagnostico, pedido_de, pedido_desde_payload};

verus! {

/// What one execution of the service does, over the store's contents before
/// (`antes`) and after (`despues`), whether the store is `infalible`, and the
/// result `r`.
///
/// A malformed payload gives `PayloadFormatError(diagnostico(payload))` and
/// leaves the store as it was. A well-formed one is upserted: on a store that
/// cannot fail the result is `Ok`; `Ok` means the order is stored under its
/// id; an error is `InternalError` and leaves the store as it was.
pub open spec fn efecto_de_ejecutar(
    antes: Map<u32, Pedido>,
    payload: JsonValue,
    infalible: bool,
    r: Result<(), DominioError>,
    despues: Map<u32, Pedido>,
) -> bool {
    match pedido_de(payload) {
        None => {
            &&& r is Err
            &&& r->Err_0 is PayloadFormatError
            &&& r->Err_0->PayloadFormatError_0@ == diagnostico(payload)
            &&& despues == antes
        },
        Some(p) => {
            &&& infalible ==> r is Ok
            &&& r is Ok ==> despues == antes.insert(p.id, p)
            &&& r is Err ==> despues == antes
            &&& r is Err ==> r == Err::<(), DominioError>(DominioError::InternalError)
        },
    }
}

/// The use case: turns a webhook event into an upsert on the storage port.
pub struct ProcessWebhookService<R: PedidoRepository> {
    repo: R,
}

impl<R: PedidoRepository> ProcessWebhookService<R> {
    /// The repository that the service writes to.
    pub closed spec fn repo_spec(&self) -> R {
        self.repo
    }

    pub fn new(repo: R) -> (s: Self)
        ensures
            s.repo_spec() == repo,
    {
        Self { repo }
    }

    /// The repository that the service writes to.
    pub fn repositorio(&self) -> (r: &R)
        ensures
            *r == self.repo_spec(),
    {
        &self.repo
    }

    /// Decodes the event's payload into an order and upserts it once; see
    /// `efecto_de_ejecutar`. Only the payload decides: the event's id and
    /// type are not read. A malformed payload never reaches the store.
    pub fn execute(&mut self, event: WebhookEvent) -> (r: Result<(), DominioError>)
        ensures
            efecto_de_ejecutar(
                old(self).repo_spec().pedidos(),
                event.payload,
                old(self).repo_spec().infalible(),
                r,
                final(self).repo_spec().pedidos(),
            ),
            pedido_de(event.payload) is None ==> final(self).repo_spec() == old(self).repo_spec(),
    {
        let pedido = match pedido_desde_payload(&event.payload) {
            Ok(p) => p,
            Err(e) => {
                return Err(e);
            },
        };
        self.repo.registrar_o_actualizar(pedido)
    }
}

} // verus!
