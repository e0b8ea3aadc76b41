use vstd::prelude::*;
use vstd::string::StringExecFns;
use crate::dominio::{texto_error, DominioError};

verus! {

/// Size ceiling, in bytes, of a request body that the webhook route accepts.
pub const LIMITE_CUERPO: u64 = 16384;

/// What the webhook route answers: a status code and a plain-text body.
#[derive(Debug)]
pub struct RespuestaHttp {
    pub codigo: u16,
    pub cuerpo: String,
}

/// The status code for the outcome of the service.
pub open spec fn codigo_de(r: Result<(), DominioError>) -> u16 {
    match r {
        Ok(()) => 200,
        Err(DominioError::PayloadFormatError(_)) => 400,
        Err(_) => 500,
    }
}

/// The response body for the outcome of the service.
pub open spec fn cuerpo_de(r: Result<(), DominioError>) -> Seq<char> {
    match r {
        Ok(()) => "OK"@,
        Err(DominioError::PayloadFormatError(m)) => "Bad Request: "@ + m@,
        Err(e) => "Internal Error: "@ + texto_error(e),
    }
}

/// Maps the outcome of the service to the HTTP response: 200 `OK`, 400 with
/// the diagnostic of a malformed payload, 500 with the text of any other
/// error.
pub fn respuesta_para(r: &Result<(), DominioError>) -> (resp: RespuestaHttp)
    ensures
        resp.codigo == codigo_de(*r),
        resp.cuerpo@ == cuerpo_de(*r),
{
    match r {
        Ok(()) => RespuestaHttp { codigo: 200, cuerpo: String::from_str("OK") },
        Err(DominioError::PayloadFormatError(m)) => RespuestaHttp {
            codigo: 400,
            cuerpo: String::from_str("Bad Request: ").concat(m.as_str()),
        },
        Err(e) => {
            let texto = e.mensaje();
            RespuestaHttp {
                codigo: 500,
                cuerpo: String::from_str("Internal Error: ").concat(texto.as_str()),
            }
        },
    }
}

} // verus!
