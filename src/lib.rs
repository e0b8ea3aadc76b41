pub mod json;
pub mod dominio;
pub mod payload;
pub mod memoria;
pub mod servicio;
pub mod http;
pub mod leyes;
