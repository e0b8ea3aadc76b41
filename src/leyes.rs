use vstd::prelude::*;
use crate::dominio::{DominioError, Pedido};
use crate::http::{codigo_de, cuerpo_de};
use crate::json::{JsonNumber, JsonValue};
use crate::payload::{campo, pedido_de, valores_de};
use crate::servicio::efecto_de_ejecutar;

verus! {

/// Executing the service on a store that cannot fail, with a payload that
/// has exactly one `pedido_id` entry holding `p`, one `monto` holding `m` and
/// one `estado_actual` holding `s`, succeeds and answers 200 `OK`; reading
/// id `p` afterwards gives `{p, s, m}`.
pub proof fn ley_ejecutar_y_leer(
    antes: Map<u32, Pedido>,
    payload: JsonValue,
    r: Result<(), DominioError>,
    despues: Map<u32, Pedido>,
    p: u32,
    m: JsonNumber,
    s: String,
)
    requires
        efecto_de_ejecutar(antes, payload, true, r, despues),
        payload is Object,
        campo(payload->Object_0@, "pedido_id"@) == Some(JsonValue::Number(JsonNumber::PosInt(p as u64))),
        campo(payload->Object_0@, "monto"@) == Some(JsonValue::Number(m)),
        campo(payload->Object_0@, "estado_actual"@) == Some(JsonValue::String(s)),
    ensures
        r is Ok,
        codigo_de(r) == 200,
        cuerpo_de(r) == "OK"@,
        despues.contains_key(p),
        despues[p] == (Pedido { id: p, status: s, amount: m }),
{
}

/// Two executions with well-formed payloads for the same id, on a store that
/// cannot fail, leave only the second order under that id: no second record
/// and nothing of the first.
pub proof fn ley_ultima_escritura_gana(
    m0: Map<u32, Pedido>,
    pl1: JsonValue,
    r1: Result<(), DominioError>,
    m1: Map<u32, Pedido>,
    pl2: JsonValue,
    r2: Result<(), DominioError>,
    m2: Map<u32, Pedido>,
)
    requires
        efecto_de_ejecutar(m0, pl1, true, r1, m1),
        efecto_de_ejecutar(m1, pl2, true, r2, m2),
        pedido_de(pl1) is Some,
        pedido_de(pl2) is Some,
        pedido_de(pl1)->Some_0.id == pedido_de(pl2)->Some_0.id,
    ensures
        r1 is Ok && r2 is Ok,
        m2 == m0.insert(pedido_de(pl2)->Some_0.id, pedido_de(pl2)->Some_0),
        m2[pedido_de(pl2)->Some_0.id] == pedido_de(pl2)->Some_0,
        m2.dom() == m1.dom(),
        m0.dom().finite() ==> m2.len() == m1.len(),
{
    let a = pedido_de(pl1)->Some_0;
    let b = pedido_de(pl2)->Some_0;
    assert(m0.insert(a.id, a).insert(b.id, b) =~= m0.insert(b.id, b));
    assert(m2.dom() =~= m1.dom());
}

/// A payload object with no `pedido_id` entry, or whose only `monto` entry
/// is not a number, makes the service fail with a format error, leaves the
/// store as it was, and is answered with status 400.
pub proof fn ley_payload_invalido(
    antes: Map<u32, Pedido>,
    payload: JsonValue,
    infalible: bool,
    r: Result<(), DominioError>,
    despues: Map<u32, Pedido>,
)
    requires
        efecto_de_ejecutar(antes, payload, infalible, r, despues),
        payload is Object,
        valores_de(payload->Object_0@, "pedido_id"@).len() == 0 || (campo(
            payload->Object_0@,
            "monto"@,
        ) is Some && !(campo(payload->Object_0@, "monto"@)->Some_0 is Number)),
    ensures
        pedido_de(payload) is None,
        r is Err && r->Err_0 is PayloadFormatError,
        despues == antes,
        codigo_de(r) == 400,
{
}

/// When the store fails an upsert of a well-formed payload, the service
/// returns its `InternalError` as it came, the store is unchanged, and the
/// answer is 500 with the error's text.
pub proof fn ley_fallo_del_almacen(
    antes: Map<u32, Pedido>,
    payload: JsonValue,
    infalible: bool,
    r: Result<(), DominioError>,
    despues: Map<u32, Pedido>,
)
    requires
        efecto_de_ejecutar(antes, payload, infalible, r, despues),
        pedido_de(payload) is Some,
        r is Err,
    ensures
        r == Err::<(), DominioError>(DominioError::InternalError),
        despues == antes,
        codigo_de(r) == 500,
        cuerpo_de(r) == "Internal Error: "@ + "Error interno del repositorio"@,
{
}

/// Executions with well-formed payloads for two different ids, on a store
/// that cannot fail, both succeed and both orders stay readable, each with
/// its own values; the store is the same whichever ran first.
pub proof fn ley_ids_distintos(
    m0: Map<u32, Pedido>,
    pl1: JsonValue,
    r1: Result<(), DominioError>,
    m1: Map<u32, Pedido>,
    pl2: JsonValue,
    r2: Result<(), DominioError>,
    m2: Map<u32, Pedido>,
)
    requires
        efecto_de_ejecutar(m0, pl1, true, r1, m1),
        efecto_de_ejecutar(m1, pl2, true, r2, m2),
        pedido_de(pl1) is Some,
        pedido_de(pl2) is Some,
        pedido_de(pl1)->Some_0.id != pedido_de(pl2)->Some_0.id,
    ensures
        r1 is Ok && r2 is Ok,
        m2[pedido_de(pl1)->Some_0.id] == pedido_de(pl1)->Some_0,
        m2[pedido_de(pl2)->Some_0.id] == pedido_de(pl2)->Some_0,
        m2 == m0.insert(pedido_de(pl2)->Some_0.id, pedido_de(pl2)->Some_0).insert(
            pedido_de(pl1)->Some_0.id,
            pedido_de(pl1)->Some_0,
        ),
{
    let a = pedido_de(pl1)->Some_0;
    let b = pedido_de(pl2)->Some_0;
    assert(m0.insert(a.id, a).insert(b.id, b) =~= m0.insert(b.id, b).insert(a.id, a));
}

} // verus!
