use vstd::prelude::*;
use vstd::string::StringExecFns;
use std::collections::HashMap;
use crate::dominio::{DominioError, Pedido, PedidoRepository};
use crate::json::JsonNumber;

verus! {

broadcast use vstd::std_specs::hash::group_hash_axioms;

/// Bit pattern of the amount 50.00 of the order the store starts with.
pub const MONTO_INICIAL: u64 = 0x4049_0000_0000_0000;

/// A volatile store of orders, keyed by id.
pub struct InMemoryPedidoRepository {
    storage: HashMap<u32, Pedido>,
}

impl InMemoryPedidoRepository {
    /// A store that holds one example order: 101, `PENDIENTE`, 50.00.
    pub fn new() -> (r: Self)
        ensures
            r.pedidos().dom() == set![101u32],
            r.pedidos().dom().finite(),
            r.infalible(),
            r.pedidos()[101].id == 101,
            r.pedidos()[101].status@ == "PENDIENTE"@,
            r.pedidos()[101].amount == JsonNumber::Float(MONTO_INICIAL),
    {
        let mut storage: HashMap<u32, Pedido> = HashMap::new();
        storage.insert(
            101,
            Pedido {
                id: 101,
                status: String::from_str("PENDIENTE"),
                amount: JsonNumber::Float(MONTO_INICIAL),
            },
        );
        assert(storage@.dom() =~= set![101u32]);
        InMemoryPedidoRepository { storage }
    }

    /// The order with the given id, if the store holds one.
    pub fn obtener(&self, id: u32) -> (r: Option<&Pedido>)
        ensures
            match r {
                Some(p) => self.pedidos().contains_key(id) && *p == self.pedidos()[id],
                None => !self.pedidos().contains_key(id),
            },
    {
        self.storage.get(&id)
    }

    /// How many orders the store holds.
    pub fn cantidad(&self) -> (n: usize)
        ensures
            n == self.pedidos().len(),
    {
        self.storage.len()
    }
}

impl PedidoRepository for InMemoryPedidoRepository {
    closed spec fn pedidos(&self) -> Map<u32, Pedido> {
        self.storage@
    }

    /// Nothing can make an upsert on this store fail.
    open spec fn infalible(&self) -> bool {
        true
    }

    /// Sets the entry for the order's id to the order.
    fn registrar_o_actualizar(&mut self, pedido: Pedido) -> (r: Result<(), DominioError>)
        ensures
            final(self).pedidos().dom().finite(),
    {
        let id = pedido.id;
        self.storage.insert(id, pedido);
        Ok(())
    }
}

} // verus!
