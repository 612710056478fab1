use crate::common::error_local::ErrorLocal;
use crate::common::lector_csv::{campo_usize, campos, natural_en, ErrorRegistro};
use csv::StringRecord;
use vstd::prelude::*;

verus! {

/// The ledger line of one product: how many units the store holds and how
/// many of them are reserved for orders in progress.
#[derive(Debug, Clone, Copy, PartialEq, Eq, Structural)]
pub struct StockProducto {
    pub id_producto: usize,
    pub stock: usize,
    pub bloqueados: usize,
}

/// One mutation of a ledger line, with its quantity.
pub enum Movimiento {
    Bloquear(usize),
    Vender(usize),
    Entregar(usize),
    Cancelar(usize),
}

/// The ledger line that the fields of a record describe: the product's id,
/// then the stock, with nothing reserved. The first field that is missing or
/// is no number decides the error.
pub open spec fn stock_de_campos(campos: Seq<Seq<char>>) -> Result<StockProducto, ErrorRegistro> {
    match natural_en(campos, 0) {
        Err(e) => Err(e),
        Ok(id_producto) => match natural_en(campos, 1) {
            Err(e) => Err(e),
            Ok(stock) => Ok(StockProducto { id_producto, stock, bloqueados: 0 }),
        },
    }
}

impl StockProducto {
    /// The ledger invariant: never more reserved than held.
    pub open spec fn bien_formado(self) -> bool {
        self.bloqueados <= self.stock
    }

    /// Units that are held and not reserved. Negative when the line is not well formed.
    pub open spec fn disponibles(self) -> int {
        self.stock - self.bloqueados
    }

    /// Outcome of reserving `cantidad` units.
    pub open spec fn resultado_bloquear(self, cantidad: usize) -> Result<(), ErrorLocal> {
        if self.disponibles() < cantidad {
            Err(ErrorLocal::StockInsuficiente)
        } else {
            Ok(())
        }
    }

    /// The line after reserving `cantidad` units; unchanged when the reservation fails.
    pub open spec fn tras_bloquear(self, cantidad: usize) -> StockProducto {
        if self.resultado_bloquear(cantidad) is Ok {
            StockProducto { bloqueados: (self.bloqueados + cantidad) as usize, ..self }
        } else {
            self
        }
    }

    /// Outcome of a walk-in sale of `cantidad` units.
    pub open spec fn resultado_vender(self, cantidad: usize) -> Result<(), ErrorLocal> {
        if self.disponibles() < cantidad {
            Err(ErrorLocal::StockInsuficiente)
        } else {
            Ok(())
        }
    }

    /// The line after a walk-in sale; unchanged when the sale fails.
    pub open spec fn tras_vender(self, cantidad: usize) -> StockProducto {
        if self.resultado_vender(cantidad) is Ok {
            StockProducto { stock: (self.stock - cantidad) as usize, ..self }
        } else {
            self
        }
    }

    /// Outcome of resolving a reservation of `cantidad` units, by delivery or by
    /// cancellation: the reserved amount is checked first, then the stock.
    pub open spec fn resultado_resolver(self, cantidad: usize) -> Result<(), ErrorLocal> {
        if self.bloqueados < cantidad {
            Err(ErrorLocal::CantidadOrdenMayorQueBloqueados)
        } else if self.stock < cantidad {
            Err(ErrorLocal::StockInsuficiente)
        } else {
            Ok(())
        }
    }

    /// The line after delivering `cantidad` reserved units; unchanged on failure.
    pub open spec fn tras_entregar(self, cantidad: usize) -> StockProducto {
        if self.resultado_resolver(cantidad) is Ok {
            StockProducto {
                stock: (self.stock - cantidad) as usize,
                bloqueados: (self.bloqueados - cantidad) as usize,
                ..self
            }
        } else {
            self
        }
    }

    /// The line after cancelling a reservation of `cantidad` units; unchanged on failure.
    pub open spec fn tras_cancelar(self, cantidad: usize) -> StockProducto {
        if self.resultado_resolver(cantidad) is Ok {
            StockProducto { bloqueados: (self.bloqueados - cantidad) as usize, ..self }
        } else {
            self
        }
    }

    /// Outcome of one movement.
    pub open spec fn resultado_de(self, m: Movimiento) -> Result<(), ErrorLocal> {
        match m {
            Movimiento::Bloquear(q) => self.resultado_bloquear(q),
            Movimiento::Vender(q) => self.resultado_vender(q),
            Movimiento::Entregar(q) => self.resultado_resolver(q),
            Movimiento::Cancelar(q) => self.resultado_resolver(q),
        }
    }

    /// The line after one movement.
    pub open spec fn tras(self, m: Movimiento) -> StockProducto {
        match m {
            Movimiento::Bloquear(q) => self.tras_bloquear(q),
            Movimiento::Vender(q) => self.tras_vender(q),
            Movimiento::Entregar(q) => self.tras_entregar(q),
            Movimiento::Cancelar(q) => self.tras_cancelar(q),
        }
    }

    /// The line after a whole history of movements, applied in order.
    pub open spec fn tras_todos(self, ms: Seq<Movimiento>) -> StockProducto
        decreases ms.len(),
    {
        if ms.len() == 0 {
            self
        } else {
            self.tras_todos(ms.drop_last()).tras(ms.last())
        }
    }

    /// A line with nothing reserved.
    pub fn new(id_producto: usize, stock: usize) -> (r: StockProducto)
        ensures
            r == (StockProducto { id_producto, stock, bloqueados: 0 }),
            r.bien_formado(),
    {
        StockProducto { id_producto, stock, bloqueados: 0 }
    }

    /// A line with a given reserved amount. It is well formed exactly when
    /// `bloqueados <= stock`.
    pub fn new_con_bloqueados(id_producto: usize, stock: usize, bloqueados: usize) -> (r:
        StockProducto)
        ensures
            r == (StockProducto { id_producto, stock, bloqueados }),
            r.bien_formado() <==> bloqueados <= stock,
    {
        StockProducto { id_producto, stock, bloqueados }
    }

    /// Reads a ledger line from a record of two fields: the product's id and
    /// the stock.
    pub fn from_record(record: StringRecord) -> (r: Result<StockProducto, ErrorRegistro>)
        ensures
            r == stock_de_campos(campos(record)),
            r is Ok ==> r.unwrap().bien_formado(),
    {
        StockProducto::de_registro(&record)
    }

    /// Reads a ledger line from a record that stays with the caller.
    pub fn de_registro(record: &StringRecord) -> (r: Result<StockProducto, ErrorRegistro>)
        ensures
            r == stock_de_campos(campos(*record)),
            r is Ok ==> r.unwrap().bien_formado(),
    {
        let id_producto = match campo_usize(record, 0) {
            Ok(n) => n,
            Err(e) => {
                return Err(e);
            },
        };
        let stock = match campo_usize(record, 1) {
            Ok(n) => n,
            Err(e) => {
                return Err(e);
            },
        };
        Ok(StockProducto { id_producto, stock, bloqueados: 0 })
    }

    /// Reserves `cantidad_a_bloquear` units out of the free stock.
    pub fn bloquear(&mut self, cantidad_a_bloquear: usize) -> (r: Result<(), ErrorLocal>)
        ensures
            r == old(self).resultado_bloquear(cantidad_a_bloquear),
            *final(self) == old(self).tras_bloquear(cantidad_a_bloquear),
            r == Err::<(), ErrorLocal>(ErrorLocal::StockInsuficiente) <==> old(self).disponibles()
                < cantidad_a_bloquear,
            r is Ok ==> final(self).bloqueados == old(self).bloqueados + cantidad_a_bloquear
                && final(self).stock == old(self).stock,
            r is Ok ==> final(self).bien_formado(),
            old(self).bien_formado() ==> final(self).bien_formado(),
    {
        if self.bloqueados <= self.stock && self.stock - self.bloqueados >= cantidad_a_bloquear {
            self.bloqueados = self.bloqueados + cantidad_a_bloquear;
            return Ok(());
        }
        Err(ErrorLocal::StockInsuficiente)
    }

    /// Sells `cantidad` units over the counter, out of the free stock.
    pub fn vender(&mut self, cantidad: usize) -> (r: Result<(), ErrorLocal>)
        ensures
            r == old(self).resultado_vender(cantidad),
            *final(self) == old(self).tras_vender(cantidad),
            r == Err::<(), ErrorLocal>(ErrorLocal::StockInsuficiente) <==> old(self).disponibles()
                < cantidad,
            r is Ok ==> final(self).stock == old(self).stock - cantidad && final(self).bloqueados
                == old(self).bloqueados,
            r is Ok ==> final(self).bien_formado(),
            old(self).bien_formado() ==> final(self).bien_formado(),
    {
        if self.bloqueados <= self.stock && self.stock - self.bloqueados >= cantidad {
            self.stock = self.stock - cantidad;
            return Ok(());
        }
        Err(ErrorLocal::StockInsuficiente)
    }

    /// Hands over `cantidad` reserved units: both the stock and the reserved
    /// amount go down.
    pub fn entregar(&mut self, cantidad: usize) -> (r: Result<(), ErrorLocal>)
        ensures
            r == old(self).resultado_resolver(cantidad),
            *final(self) == old(self).tras_entregar(cantidad),
            r == Err::<(), ErrorLocal>(ErrorLocal::CantidadOrdenMayorQueBloqueados) <==> old(
                self
            ).bloqueados < cantidad,
            r is Ok ==> final(self).stock == old(self).stock - cantidad && final(self).bloqueados
                == old(self).bloqueados - cantidad,
            old(self).bien_formado() ==> final(self).bien_formado(),
    {
        if self.bloqueados < cantidad {
            return Err(ErrorLocal::CantidadOrdenMayorQueBloqueados);
        }
        if self.stock < cantidad {
            return Err(ErrorLocal::StockInsuficiente);
        }
        self.stock = self.stock - cantidad;
        self.bloqueados = self.bloqueados - cantidad;
        Ok(())
    }

    /// Releases a reservation of `cantidad` units back into the free stock.
    pub fn cancelar(&mut self, cantidad: usize) -> (r: Result<(), ErrorLocal>)
        ensures
            r == old(self).resultado_resolver(cantidad),
            *final(self) == old(self).tras_cancelar(cantidad),
            r == Err::<(), ErrorLocal>(ErrorLocal::CantidadOrdenMayorQueBloqueados) <==> old(
                self
            ).bloqueados < cantidad,
            r is Ok ==> final(self).bloqueados == old(self).bloqueados - cantidad && final(
                self
            ).stock == old(self).stock,
            old(self).bien_formado() ==> final(self).bien_formado(),
    {
        if self.bloqueados < cantidad {
            return Err(ErrorLocal::CantidadOrdenMayorQueBloqueados);
        }
        if self.stock < cantidad {
            return Err(ErrorLocal::StockInsuficiente);
        }
        self.bloqueados = self.bloqueados - cantidad;
        Ok(())
    }
}

/// A single movement never breaks the ledger invariant, whether it succeeds or
/// is refused.
pub proof fn lema_movimiento_conserva_invariante(p: StockProducto, m: Movimiento)
    requires
        p.bien_formado(),
    ensures
        p.tras(m).bien_formado(),
        p.resultado_de(m) is Err ==> p.tras(m) == p,
{
}

/// Starting from a well-formed line, every history of movements leaves
/// `0 <= bloqueados <= stock`.
pub proof fn lema_historia_conserva_invariante(p: StockProducto, ms: Seq<Movimiento>)
    requires
        p.bien_formado(),
    ensures
        p.tras_todos(ms).bien_formado(),
        0 <= p.tras_todos(ms).bloqueados <= p.tras_todos(ms).stock,
    decreases ms.len(),
{
    if ms.len() > 0 {
        lema_historia_conserva_invariante(p, ms.drop_last());
        lema_movimiento_conserva_invariante(p.tras_todos(ms.drop_last()), ms.last());
    }
}

} // verus!
