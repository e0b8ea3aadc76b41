use vstd::prelude::*;
use vstd::string::StringExecFns;
use crate::dominio::{DominioError, Pedido};
use crate::json::{JsonNumber, JsonValue};

verus! {

/// The values of the entries whose key is `clave`, in document order.
pub open spec fn valores_de(campos: Seq<(String, JsonValue)>, clave: Seq<char>) -> Seq<JsonValue>
    decreases campos.len(),
{
    if campos.len() == 0 {
        Seq::empty()
    } else {
        let previos = valores_de(campos.drop_last(), clave);
        if campos.last().0@ == clave {
            previos.push(campos.last().1)
        } else {
            previos
        }
    }
}

/// The value of the field `clave`, when exactly one entry has that key.
pub open spec fn campo(campos: Seq<(String, JsonValue)>, clave: Seq<char>) -> Option<JsonValue> {
    let vs = valores_de(campos, clave);
    if vs.len() == 1 {
        Some(vs[0])
    } else {
        None
    }
}

/// A JSON value read as an order id: an integer from 0 to `u32::MAX`.
pub open spec fn id_de(v: JsonValue) -> Option<u32> {
    match v {
        JsonValue::Number(JsonNumber::PosInt(u)) => if u <= u32::MAX {
            Some(u as u32)
        } else {
            None
        },
        JsonValue::Number(JsonNumber::NegInt(i)) => if 0 <= i <= u32::MAX {
            Some(i as u32)
        } else {
            None
        },
        _ => None,
    }
}

/// The order built from the three fields, when each has the right type.
pub open spec fn armar_pedido(
    id: Option<JsonValue>,
    monto: Option<JsonValue>,
    estado: Option<JsonValue>,
) -> Option<Pedido> {
    match (id, monto, estado) {
        (Some(i), Some(JsonValue::Number(n)), Some(JsonValue::String(s))) => match id_de(i) {
            Some(k) => Some(Pedido { id: k, status: s, amount: n }),
            None => None,
        },
        _ => None,
    }
}

/// The order that a webhook payload describes, if it is well formed.
///
/// The payload is an object with exactly one entry for each of
/// `pedido_id`, `monto` and `estado_actual`; other entries are ignored.
pub open spec fn pedido_de(payload: JsonValue) -> Option<Pedido> {
    match payload {
        JsonValue::Object(campos) => armar_pedido(
            campo(campos@, "pedido_id"@),
            campo(campos@, "monto"@),
            campo(campos@, "estado_actual"@),
        ),
        _ => None,
    }
}

/// What is wrong with the three fields: the first of them, in the order
/// `pedido_id`, `monto`, `estado_actual`, that is missing (or repeated) or
/// of the wrong type.
pub open spec fn detalle_armar(
    id: Option<JsonValue>,
    monto: Option<JsonValue>,
    estado: Option<JsonValue>,
) -> Seq<char> {
    if id is None {
        "falta o se repite el campo `pedido_id`"@
    } else if id_de(id->Some_0) is None {
        if id->Some_0 is Number && !(id->Some_0->Number_0 is Float) {
            "pedido_id fuera del rango de u32"@
        } else {
            "pedido_id no es un entero sin signo"@
        }
    } else if monto is None {
        "falta o se repite el campo `monto`"@
    } else if !(monto->Some_0 is Number) {
        "monto no es un numero"@
    } else if estado is None {
        "falta o se repite el campo `estado_actual`"@
    } else {
        "estado_actual no es una cadena"@
    }
}

/// The text that opens every diagnostic of a malformed payload.
pub open spec fn prefijo_diagnostico() -> Seq<char> {
    "Error en payload del webhook: "@
}

/// The diagnostic for a payload that `pedido_de` rejects.
pub open spec fn diagnostico(payload: JsonValue) -> Seq<char> {
    prefijo_diagnostico() + match payload {
        JsonValue::Object(campos) => detalle_armar(
            campo(campos@, "pedido_id"@),
            campo(campos@, "monto"@),
            campo(campos@, "estado_actual"@),
        ),
        _ => "se esperaba un objeto"@,
    }
}

/// Finds the value of the only entry keyed `clave`.
fn buscar_unico<'a>(campos: &'a Vec<(String, JsonValue)>, clave: &String) -> (r: Option<&'a JsonValue>)
    ensures
        match r {
            Some(v) => campo(campos@, clave@) == Some(*v),
            None => campo(campos@, clave@) is None,
        },
{
    let mut hallado: Option<&JsonValue> = None;
    let mut cuenta: usize = 0;
    let mut i: usize = 0;
    while i < campos.len()
        invariant
            i <= campos@.len(),
            cuenta <= i,
            cuenta == valores_de(campos@.subrange(0, i as int), clave@).len(),
            match hallado {
                Some(v) => cuenta >= 1 && *v == valores_de(campos@.subrange(0, i as int), clave@)[0],
                None => cuenta == 0,
            },
        decreases campos@.len() - i,
    {
        let ghost previo = campos@.subrange(0, i as int);
        assert(campos@.subrange(0, i + 1).drop_last() =~= previo);
        if campos[i].0 == *clave {
            if cuenta == 0 {
                hallado = Some(&campos[i].1);
            }
            cuenta = cuenta + 1;
        }
        i = i + 1;
    }
    assert(campos@.subrange(0, campos@.len() as int) =~= campos@);
    if cuenta == 1 {
        hallado
    } else {
        None
    }
}

/// Builds the error that reports a malformed payload.
fn error_de_formato(detalle: &str) -> (e: DominioError)
    ensures
        e is PayloadFormatError,
        e->PayloadFormatError_0@ == prefijo_diagnostico() + detalle@,
{
    let prefijo = String::from_str("Error en payload del webhook: ");
    DominioError::PayloadFormatError(prefijo.concat(detalle))
}

/// Builds the order from its three fields, or says which one is wrong.
fn armar(
    id: Option<&JsonValue>,
    monto: Option<&JsonValue>,
    estado: Option<&JsonValue>,
) -> (r: Result<Pedido, DominioError>)
    ensures
        match armar_pedido(
            match id { Some(v) => Some(*v), None => None },
            match monto { Some(v) => Some(*v), None => None },
            match estado { Some(v) => Some(*v), None => None },
        ) {
            Some(p) => r == Ok::<Pedido, DominioError>(p),
            None => {
                &&& r is Err
                &&& r->Err_0 is PayloadFormatError
                &&& r->Err_0->PayloadFormatError_0@ == prefijo_diagnostico() + detalle_armar(
                    match id { Some(v) => Some(*v), None => None },
                    match monto { Some(v) => Some(*v), None => None },
                    match estado { Some(v) => Some(*v), None => None },
                )
            },
        },
{
    let k: u32 = match id {
        Some(JsonValue::Number(JsonNumber::PosInt(u))) => {
            if *u <= 0xffff_ffff {
                *u as u32
            } else {
                return Err(error_de_formato("pedido_id fuera del rango de u32"));
            }
        },
        Some(JsonValue::Number(JsonNumber::NegInt(x))) => {
            if 0 <= *x && *x <= 0xffff_ffff {
                *x as u32
            } else {
                return Err(error_de_formato("pedido_id fuera del rango de u32"));
            }
        },
        Some(_) => {
            return Err(error_de_formato("pedido_id no es un entero sin signo"));
        },
        None => {
            return Err(error_de_formato("falta o se repite el campo `pedido_id`"));
        },
    };
    let n: JsonNumber = match monto {
        Some(JsonValue::Number(n)) => *n,
        Some(_) => {
            return Err(error_de_formato("monto no es un numero"));
        },
        None => {
            return Err(error_de_formato("falta o se repite el campo `monto`"));
        },
    };
    let s: String = match estado {
        Some(JsonValue::String(s)) => s.clone(),
        Some(_) => {
            return Err(error_de_formato("estado_actual no es una cadena"));
        },
        None => {
            return Err(error_de_formato("falta o se repite el campo `estado_actual`"));
        },
    };
    Ok(Pedido { id: k, status: s, amount: n })
}

/// Decodes a webhook payload into the order it describes.
///
/// Succeeds exactly when the payload is well formed (see `pedido_de`);
/// otherwise fails with a `PayloadFormatError` whose message is
/// `diagnostico(payload)`.
pub fn pedido_desde_payload(payload: &JsonValue) -> (r: Result<Pedido, DominioError>)
    ensures
        match pedido_de(*payload) {
            Some(p) => r == Ok::<Pedido, DominioError>(p),
            None => {
                &&& r is Err
                &&& r->Err_0 is PayloadFormatError
                &&& r->Err_0->PayloadFormatError_0@ == diagnostico(*payload)
            },
        },
{
    match payload {
        JsonValue::Object(campos) => {
            let clave_id = String::from_str("pedido_id");
            let clave_monto = String::from_str("monto");
            let clave_estado = String::from_str("estado_actual");
            let id = buscar_unico(campos, &clave_id);
            let monto = buscar_unico(campos, &clave_monto);
            let estado = buscar_unico(campos, &clave_estado);
            armar(id, monto, estado)
        },
        _ => Err(error_de_formato("se esperaba un objeto")),
    }
}

} // verus!
