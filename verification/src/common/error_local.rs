use vstd::prelude::*;

verus! {

/// Why a store refused an operation on its stock.
#[derive(Debug, Clone, Copy, PartialEq, Eq, Structural)]
pub enum ErrorLocal {
    /// The free stock (or, on delivery, the stock itself) does not cover the quantity.
    StockInsuficiente,
    /// The store keeps no record of the product.
    NoExisteProductoEnLocal,
    /// The quantity is larger than what the record holds reserved.
    CantidadOrdenMayorQueBloqueados,
}

impl ErrorLocal {
    /// The text shown to an operator for this error.
    pub open spec fn texto(self) -> Seq<char> {
        match self {
            ErrorLocal::StockInsuficiente => "No hay stock suficiente en el local"@,
            ErrorLocal::NoExisteProductoEnLocal => "No exste el producto en el local"@,
            ErrorLocal::CantidadOrdenMayorQueBloqueados =>
                "La cantidad de la orden supera a la cantidad de bloqueados"@,
        }
    }

    /// Human-readable description of the error.
    pub fn descripcion(&self) -> (r: &'static str)
        ensures
            r@ == self.texto(),
    {
        match self {
            ErrorLocal::StockInsuficiente => "No hay stock suficiente en el local",
            ErrorLocal::NoExisteProductoEnLocal => "No exste el producto en el local",
            ErrorLocal::CantidadOrdenMayorQueBloqueados =>
                "La cantidad de la orden supera a la cantidad de bloqueados",
        }
    }
}

} // verus!
