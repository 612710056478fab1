use crate::common::lector_csv::{
    campo_i32, campo_usize, campos, entero_en, natural_en, ErrorRegistro,
};
use crate::common::numeros::{cifras, decimal};
use csv::StringRecord;
use vstd::prelude::*;

verus! {

/// A point on the globe, in whole degrees.
#[derive(Debug, Clone, Copy, PartialEq, Eq, PartialOrd, Structural)]
pub struct Direccion {
    pub latitud: i32,
    pub longitud: i32,
}

impl Direccion {
    pub fn new(latitud: i32, longitud: i32) -> (r: Direccion)
        ensures
            r == (Direccion { latitud, longitud }),
    {
        Direccion { latitud, longitud }
    }
}

/// A customer's request for `cantidad` units of a product, to be delivered at
/// `direccion`.
#[derive(Debug, Clone, Copy, PartialEq, Eq, PartialOrd, Structural)]
pub struct Orden {
    pub id_producto: usize,
    pub cantidad: usize,
    pub direccion: Direccion,
}

/// The order that the fields of a record describe: the product's id, the
/// quantity, the latitude and the longitude, in this order. The first field
/// that is missing or is no number decides the error.
pub open spec fn orden_de_campos(campos: Seq<Seq<char>>) -> Result<Orden, ErrorRegistro> {
    match natural_en(campos, 0) {
        Err(e) => Err(e),
        Ok(id_producto) => match natural_en(campos, 1) {
            Err(e) => Err(e),
            Ok(cantidad) => match entero_en(campos, 2) {
                Err(e) => Err(e),
                Ok(latitud) => match entero_en(campos, 3) {
                    Err(e) => Err(e),
                    Ok(longitud) => Ok(
                        Orden { id_producto, cantidad, direccion: Direccion { latitud, longitud } },
                    ),
                },
            },
        },
    }
}

impl Orden {
    pub fn new(id_producto: usize, cantidad: usize, latitud: i32, longitud: i32) -> (r: Orden)
        ensures
            r == (Orden { id_producto, cantidad, direccion: Direccion { latitud, longitud } }),
    {
        Orden { id_producto, cantidad, direccion: Direccion::new(latitud, longitud) }
    }

    /// The order in one line of text: the product's id, a comma, the
    /// quantity, and the end of the line.
    pub fn texto(&self) -> (r: String)
        ensures
            r@ == cifras(self.id_producto as nat) + ","@ + cifras(self.cantidad as nat) + "\n"@,
    {
        let mut r = decimal(self.id_producto);
        r.append(",");
        let cantidad = decimal(self.cantidad);
        r.append(cantidad.as_str());
        r.append("\n");
        r
    }

    /// Reads an order from a record of four fields: the product's id, the
    /// quantity, the latitude and the longitude.
    pub fn from_record(record: StringRecord) -> (r: Result<Orden, ErrorRegistro>)
        ensures
            r == orden_de_campos(campos(record)),
    {
        Orden::de_registro(&record)
    }

    /// Reads an order from a record that stays with the caller.
    pub fn de_registro(record: &StringRecord) -> (r: Result<Orden, ErrorRegistro>)
        ensures
            r == orden_de_campos(campos(*record)),
    {
        let id_producto = match campo_usize(record, 0) {
            Ok(n) => n,
            Err(e) => {
                return Err(e);
            },
        };
        let cantidad = match campo_usize(record, 1) {
            Ok(n) => n,
            Err(e) => {
                return Err(e);
            },
        };
        let latitud = match campo_i32(record, 2) {
            Ok(n) => n,
            Err(e) => {
                return Err(e);
            },
        };
        let longitud = match campo_i32(record, 3) {
            Ok(n) => n,
            Err(e) => {
                return Err(e);
            },
        };
        Ok(Orden { id_producto, cantidad, direccion: Direccion::new(latitud, longitud) })
    }
}

} // verus!
