pub mod conexion_tcp;
pub mod cordinador;
pub mod error_local;
pub mod lector_csv;
pub mod local;
pub mod mensaje_protocolo;
pub mod numeros;
pub mod orden;
pub mod socket;
pub mod stock_producto;
