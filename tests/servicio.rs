use webhook_pedidos::dominio::{DominioError, PedidoRepository, WebhookEvent};
use webhook_pedidos::http::{respuesta_para, LIMITE_CUERPO};
use webhook_pedidos::json::{JsonNumber, JsonValue};
use webhook_pedidos::memoria::InMemoryPedidoRepository;
use webhook_pedidos::servicio::ProcessWebhookService;

fn texto(s: &str) -> JsonValue {
    JsonValue::String(s.to_string())
}

fn flotante(x: f64) -> JsonValue {
    JsonValue::Number(JsonNumber::Float(x.to_bits()))
}

fn entero(u: u64) -> JsonValue {
    JsonValue::Number(JsonNumber::PosInt(u))
}

fn objeto(campos: Vec<(&str, JsonValue)>) -> JsonValue {
    JsonValue::Object(campos.into_iter().map(|(k, v)| (k.to_string(), v)).collect())
}

fn evento(payload: JsonValue) -> WebhookEvent {
    WebhookEvent {
        id: uuid::Uuid::new_v4(),
        event_type: "order.updated".to_string(),
        payload,
    }
}

fn servicio() -> ProcessWebhookService<InMemoryPedidoRepository> {
    ProcessWebhookService::new(InMemoryPedidoRepository::new())
}

fn monto_f64(n: JsonNumber) -> f64 {
    match n {
        JsonNumber::Float(bits) => f64::from_bits(bits),
        JsonNumber::PosInt(u) => u as f64,
        JsonNumber::NegInt(i) => i as f64,
    }
}

#[test]
fn end_to_end_order_updated_paid() {
    let mut s = servicio();
    let payload = objeto(vec![
        ("pedido_id", entero(101)),
        ("monto", flotante(75.5)),
        ("estado_actual", texto("PAID")),
    ]);
    let r = s.execute(evento(payload));
    assert!(r.is_ok());
    let resp = respuesta_para(&r);
    assert_eq!(resp.codigo, 200);
    assert_eq!(resp.cuerpo, "OK");
    let p = s.repositorio().obtener(101).unwrap();
    assert_eq!(p.id, 101);
    assert_eq!(p.status, "PAID");
    assert_eq!(monto_f64(p.amount), 75.5);
}

#[test]
fn execute_then_read_gives_payload_values() {
    let mut s = servicio();
    let payload = objeto(vec![
        ("estado_actual", texto("PENDING")),
        ("pedido_id", entero(7)),
        ("monto", entero(12)),
    ]);
    assert!(s.execute(evento(payload)).is_ok());
    let p = s.repositorio().obtener(7).unwrap();
    assert_eq!(p.status, "PENDING");
    assert_eq!(p.amount, JsonNumber::PosInt(12));
    assert_eq!(s.repositorio().cantidad(), 2);
}

#[test]
fn store_starts_with_example_order() {
    let repo = InMemoryPedidoRepository::new();
    assert_eq!(repo.cantidad(), 1);
    let p = repo.obtener(101).unwrap();
    assert_eq!(p.status, "PENDIENTE");
    assert_eq!(monto_f64(p.amount), 50.0);
    assert!(repo.obtener(102).is_none());
}

#[test]
fn second_upsert_of_same_id_wins() {
    let mut s = servicio();
    let primero = objeto(vec![
        ("pedido_id", entero(5)),
        ("monto", flotante(10.0)),
        ("estado_actual", texto("PENDING")),
    ]);
    let segundo = objeto(vec![
        ("pedido_id", entero(5)),
        ("monto", flotante(20.25)),
        ("estado_actual", texto("PAID")),
    ]);
    assert!(s.execute(evento(primero)).is_ok());
    assert!(s.execute(evento(segundo)).is_ok());
    let p = s.repositorio().obtener(5).unwrap();
    assert_eq!(p.status, "PAID");
    assert_eq!(monto_f64(p.amount), 20.25);
    assert_eq!(s.repositorio().cantidad(), 2);
}

#[test]
fn distinct_ids_are_both_kept() {
    let mut repo = InMemoryPedidoRepository::new();
    let a = webhook_pedidos::dominio::Pedido {
        id: 101,
        status: "PAID".to_string(),
        amount: JsonNumber::Float(1.5f64.to_bits()),
    };
    let b = webhook_pedidos::dominio::Pedido {
        id: 102,
        status: "SHIPPED".to_string(),
        amount: JsonNumber::Float(2.5f64.to_bits()),
    };
    assert!(repo.registrar_o_actualizar(a).is_ok());
    assert!(repo.registrar_o_actualizar(b).is_ok());
    assert_eq!(repo.obtener(101).unwrap().status, "PAID");
    assert_eq!(repo.obtener(102).unwrap().status, "SHIPPED");
    assert_eq!(monto_f64(repo.obtener(101).unwrap().amount), 1.5);
    assert_eq!(monto_f64(repo.obtener(102).unwrap().amount), 2.5);
    assert_eq!(repo.cantidad(), 2);
}

#[test]
fn missing_pedido_id_is_bad_request() {
    let mut s = servicio();
    let payload = objeto(vec![("monto", flotante(1.0)), ("estado_actual", texto("PAID"))]);
    let r = s.execute(evento(payload));
    assert!(matches!(r, Err(DominioError::PayloadFormatError(_))));
    let resp = respuesta_para(&r);
    assert_eq!(resp.codigo, 400);
    assert!(resp.cuerpo.starts_with("Bad Request: Error en payload del webhook: "));
    assert_eq!(s.repositorio().cantidad(), 1);
}

#[test]
fn non_numeric_monto_is_format_error() {
    let mut s = servicio();
    let payload = objeto(vec![
        ("pedido_id", entero(101)),
        ("monto", texto("75.5")),
        ("estado_actual", texto("PAID")),
    ]);
    let r = s.execute(evento(payload));
    assert!(matches!(r, Err(DominioError::PayloadFormatError(_))));
    assert_eq!(respuesta_para(&r).codigo, 400);
    assert_eq!(s.repositorio().obtener(101).unwrap().status, "PENDIENTE");
}

#[test]
fn internal_error_is_server_error() {
    let r: Result<(), DominioError> = Err(DominioError::InternalError);
    let resp = respuesta_para(&r);
    assert_eq!(resp.codigo, 500);
    assert_eq!(resp.cuerpo, "Internal Error: Error interno del repositorio");
    let r: Result<(), DominioError> = Err(DominioError::NotFound);
    let resp = respuesta_para(&r);
    assert_eq!(resp.codigo, 500);
    assert_eq!(resp.cuerpo, "Internal Error: Recurso no encontrado");
}

#[test]
fn format_error_body_carries_message() {
    let r: Result<(), DominioError> = Err(DominioError::PayloadFormatError("x".to_string()));
    let resp = respuesta_para(&r);
    assert_eq!(resp.codigo, 400);
    assert_eq!(resp.cuerpo, "Bad Request: x");
}

#[test]
fn error_messages() {
    assert_eq!(DominioError::NotFound.mensaje(), "Recurso no encontrado");
    assert_eq!(DominioError::InternalError.mensaje(), "Error interno del repositorio");
    assert_eq!(
        DominioError::PayloadFormatError("falta".to_string()).mensaje(),
        "Error de formato del payload: falta"
    );
}

#[test]
fn body_limit_is_sixteen_kib() {
    assert_eq!(LIMITE_CUERPO, 16 * 1024);
}

#[test]
fn integer_amount_empty_status_and_extra_key() {
    let mut s = servicio();
    let payload = objeto(vec![
        ("pedido_id", entero(5)),
        ("monto", entero(75)),
        ("estado_actual", texto("")),
        ("extra", JsonValue::Bool(true)),
    ]);
    assert!(s.execute(evento(payload)).is_ok());
    let p = s.repositorio().obtener(5).unwrap();
    assert_eq!(p.status, "");
    assert_eq!(p.amount, JsonNumber::PosInt(75));
    assert_eq!(monto_f64(p.amount), 75.0);
}
